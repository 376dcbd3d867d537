use ssg::assets::asset_paths;
use ssg::errors::DocError;
use ssg::loader::load_document;
use ssg::pipeline::process_document;
use ssg::pipeline::DocOutcome;
use ssg::registry::TemplateRegistry;
use ssg::renderer::render_document;
use ssg::walker::continue_after_failure;
use ssg::walker::plan_entry;
use ssg::walker::EntryKind;
use ssg::walker::EntryPlan;
use ssg::walker::RunSummary;
use ssg::walker::WalkPolicy;

fn registry() -> TemplateRegistry {
    let mut reg = TemplateRegistry::new();
    reg.register("article", "<article>{{BODY}}</article>").unwrap();
    reg.register("custom", "{{BODY}}").unwrap();
    reg
}

#[test]
fn bare_document_defaults_everything() {
    let t = load_document("a/b.html", "Hello world").unwrap();
    assert_eq!(t.len(), 3);
    assert_eq!(t.get("template").and_then(|v| v.as_str()), Some("article"));
    assert_eq!(t.get("type").and_then(|v| v.as_str()), Some("html"));
    assert_eq!(t.get("BODY").and_then(|v| v.as_str()), Some("Hello world"));
}

#[test]
fn loaded_table_always_has_the_three_keys() {
    let t = load_document("p.html", "title = \"Hi\"\n*** ssg ***\nBody text").unwrap();
    assert!(t.contains_key("template"));
    assert!(t.contains_key("type"));
    assert!(t.contains_key("BODY"));
    assert_eq!(t.get("title").and_then(|v| v.as_str()), Some("Hi"));
    assert_eq!(t.get("BODY").and_then(|v| v.as_str()), Some("Body text"));
}

#[test]
fn the_body_always_wins_over_declared_body() {
    let t = load_document("p.html", "BODY = \"decoy\"\n*** ssg ***\nreal").unwrap();
    assert_eq!(t.get("BODY").and_then(|v| v.as_str()), Some("real"));
}

#[test]
fn malformed_front_matter_degrades_to_the_empty_table() {
    let t = load_document("p.html", "= not toml =\n*** ssg ***\nBody").unwrap();
    assert_eq!(t.len(), 3);
    assert_eq!(t.get("template").and_then(|v| v.as_str()), Some("article"));
}

#[test]
fn the_extension_is_lowercased_for_the_type() {
    let t = load_document("p.HTML", "Body").unwrap();
    assert_eq!(t.get("type").and_then(|v| v.as_str()), Some("html"));
}

#[test]
fn a_declared_type_beats_the_extension() {
    let t = load_document("p.md", "type = \"html\"\n*** ssg ***\nBody").unwrap();
    assert_eq!(t.get("type").and_then(|v| v.as_str()), Some("html"));
}

#[test]
fn no_extension_is_a_hard_failure() {
    assert_eq!(load_document("README", "Body"), Err(DocError::NoExtension));
}

#[test]
fn round_trip_with_a_custom_template() {
    let reg = registry();
    match process_document(&reg, "p.html", "template = \"custom\"\n*** ssg ***\nHello") {
        DocOutcome::Rendered { output, assets } => {
            assert_eq!(output, "Hello");
            assert!(assets.is_empty());
        },
        _ => panic!("the document should render"),
    }
}

#[test]
fn a_bare_document_renders_with_the_article_template() {
    let reg = registry();
    match process_document(&reg, "p.html", "Hello") {
        DocOutcome::Rendered { output, .. } => assert_eq!(output, "<article>Hello</article>"),
        _ => panic!("the document should render"),
    }
}

#[test]
fn every_front_matter_key_reaches_the_context() {
    let mut reg = TemplateRegistry::new();
    reg.register("article", "{{title}}: {{BODY}}").unwrap();
    match process_document(&reg, "p.html", "title = \"Hi\"\n*** ssg ***\nBody") {
        DocOutcome::Rendered { output, .. } => assert_eq!(output, "Hi: Body"),
        _ => panic!("the document should render"),
    }
}

#[test]
fn an_unsupported_type_is_reported_and_siblings_still_render() {
    let reg = registry();
    match process_document(&reg, "a.html", "type = \"markdown\"\n*** ssg ***\nx") {
        DocOutcome::Failed(DocError::UnsupportedType(ty)) => assert_eq!(ty, "markdown"),
        _ => panic!("a markdown document must be refused"),
    }
    match process_document(&reg, "b.html", "y") {
        DocOutcome::Rendered { output, .. } => assert_eq!(output, "<article>y</article>"),
        _ => panic!("the sibling should still render"),
    }
}

#[test]
fn a_non_string_type_is_the_wrong_shape() {
    let reg = registry();
    match process_document(&reg, "a.html", "type = 42\n*** ssg ***\nx") {
        DocOutcome::Failed(DocError::InvalidMetadataShape { field }) => assert_eq!(field, "type"),
        _ => panic!("a numeric type must be refused as the wrong shape"),
    }
    match process_document(&reg, "b.html", "template = []\n*** ssg ***\nx") {
        DocOutcome::Failed(DocError::InvalidMetadataShape { field }) => {
            assert_eq!(field, "template")
        },
        _ => panic!("a non-string template must be refused as the wrong shape"),
    }
}

#[test]
fn a_missing_template_is_reported_by_name() {
    let reg = registry();
    match process_document(&reg, "a.html", "template = \"nope\"\n*** ssg ***\nx") {
        DocOutcome::Failed(DocError::TemplateNotFound(name)) => assert_eq!(name, "nope"),
        _ => panic!("an unregistered template must be reported"),
    }
}

#[test]
fn an_engine_refusal_is_a_render_failure() {
    let mut reg = TemplateRegistry::new();
    reg.register("article", "{{> missing_partial}}").unwrap();
    match process_document(&reg, "a.html", "x") {
        DocOutcome::Failed(DocError::RenderFailure { template, message, context }) => {
            assert_eq!(template, "article");
            assert!(!message.is_empty());
            assert_eq!(context.get("BODY").and_then(|v| v.as_str()), Some("x"));
        },
        _ => panic!("a missing partial must fail the render"),
    }
}

#[test]
fn assets_are_collected_in_copy_order() {
    let reg = registry();
    let text = "stylesheet = \"s.css\"\nscript = \"s.js\"\nassets = [\"img/logo.png\", \"data/table.csv\"]\n*** ssg ***\nx";
    match process_document(&reg, "a.html", text) {
        DocOutcome::Rendered { assets, .. } => {
            assert_eq!(assets, vec!["s.css", "s.js", "img/logo.png", "data/table.csv"]);
        },
        _ => panic!("the document should render"),
    }
}

#[test]
fn a_single_asset_string_is_one_copy() {
    let reg = registry();
    match process_document(&reg, "a.html", "assets = \"one.bin\"\n*** ssg ***\nx") {
        DocOutcome::Rendered { assets, .. } => assert_eq!(assets, vec!["one.bin"]),
        _ => panic!("the document should render"),
    }
}

#[test]
fn non_string_asset_items_are_passed_over() {
    let reg = registry();
    match process_document(&reg, "a.html", "assets = [\"a.png\", 7, \"b.png\"]\n*** ssg ***\nx") {
        DocOutcome::Rendered { assets, .. } => assert_eq!(assets, vec!["a.png", "b.png"]),
        _ => panic!("the document should render"),
    }
}

#[test]
fn a_numeric_assets_key_is_the_wrong_shape() {
    let reg = registry();
    match process_document(&reg, "a.html", "assets = 42\n*** ssg ***\nx") {
        DocOutcome::RenderedBadAssets { output } => {
            assert_eq!(output, "<article>x</article>");
        },
        _ => panic!("a numeric assets key must spoil the copies"),
    }
    let t = load_document("a.html", "assets = 42\n*** ssg ***\nx").unwrap();
    assert_eq!(asset_paths(&t), Err(DocError::InvalidAssetsShape));
}

#[test]
fn the_last_registration_wins() {
    let mut reg = TemplateRegistry::new();
    reg.register("article", "first {{BODY}}").unwrap();
    assert_eq!(reg.register_file_source("templates/article.hbs", "second {{BODY}}"), Ok(true));
    match process_document(&reg, "a.html", "x") {
        DocOutcome::Rendered { output, .. } => assert_eq!(output, "second x"),
        _ => panic!("the document should render"),
    }
}

#[test]
fn contains_reports_what_is_registered() {
    let mut reg = TemplateRegistry::new();
    assert!(!reg.contains("article"));
    reg.register("article", "x").unwrap();
    assert!(reg.contains("article"));
}

#[test]
fn a_non_string_stylesheet_is_passed_over() {
    let reg = registry();
    match process_document(&reg, "a.html", "stylesheet = 42\nscript = false\n*** ssg ***\nx") {
        DocOutcome::Rendered { assets, .. } => assert!(assets.is_empty()),
        _ => panic!("the document should render"),
    }
}

#[test]
fn nested_front_matter_reaches_the_context_whole() {
    let mut reg = TemplateRegistry::new();
    reg.register("article", "{{meta.author}} wrote {{BODY}}").unwrap();
    match process_document(&reg, "a.html", "meta = { author = \"Ada\" }\n*** ssg ***\nit") {
        DocOutcome::Rendered { output, .. } => assert_eq!(output, "Ada wrote it"),
        _ => panic!("the document should render"),
    }
}

#[test]
fn an_empty_stem_skips_the_registration() {
    let mut reg = TemplateRegistry::new();
    assert_eq!(reg.register_file_source("templates/", "x"), Ok(false));
    assert!(!reg.contains(""));
}

#[test]
fn a_template_that_does_not_compile_is_fatal_and_changes_nothing() {
    let mut reg = TemplateRegistry::new();
    assert!(reg.register("bad", "{{#if x}}never closed").is_err());
    assert!(!reg.contains("bad"));
}

#[test]
fn rendering_twice_is_byte_identical() {
    let reg = registry();
    let text = "template = \"custom\"\n*** ssg ***\nSame bytes";
    let first = match process_document(&reg, "p.html", text) {
        DocOutcome::Rendered { output, .. } => output,
        _ => panic!("the document should render"),
    };
    let second = match process_document(&reg, "p.html", text) {
        DocOutcome::Rendered { output, .. } => output,
        _ => panic!("the document should render"),
    };
    assert_eq!(first, second);
}

#[test]
fn render_document_alone_matches_the_pipeline() {
    let reg = registry();
    let t = load_document("p.html", "Hello").unwrap();
    assert_eq!(render_document(&reg, &t), Ok("<article>Hello</article>".to_string()));
}

#[test]
fn directory_entries_are_mirrored_and_files_planned() {
    match plan_entry(EntryKind::Directory, "src", "docs", "a/b") {
        EntryPlan::CreateDir(p) => assert_eq!(p, "docs/a/b"),
        _ => panic!("a directory entry must be mirrored"),
    }
    match plan_entry(EntryKind::File, "src", "docs", "a/b/c.html") {
        EntryPlan::RenderFile(h) => {
            assert_eq!(h.in_file(), "src/a/b/c.html");
            assert_eq!(h.out_file(), "docs/a/b/c.html");
        },
        _ => panic!("a file entry must be rendered"),
    }
}

#[test]
fn the_policy_decides_whether_the_walk_goes_on() {
    assert!(continue_after_failure(WalkPolicy::SkipAndContinue));
    assert!(!continue_after_failure(WalkPolicy::AbortOnError));
}

#[test]
fn the_summary_counts_and_reports() {
    let mut s = RunSummary::new();
    assert!(s.success());
    s.record_rendered();
    s.record_skipped("a.html: unsupported type".to_string());
    assert_eq!(s.rendered, 1);
    assert_eq!(s.skipped, 1);
    assert_eq!(s.diagnostics.len(), 1);
    assert!(!s.success());
}

#[test]
fn every_condition_describes_itself_with_its_payload() {
    assert_eq!(
        DocError::NoExtension.describe(),
        "the source path has no extension to derive a type from"
    );
    assert_eq!(
        DocError::UnsupportedType("markdown".to_string()).describe(),
        "cannot handle files of type markdown"
    );
    assert_eq!(
        DocError::InvalidMetadataShape { field: "type".to_string() }.describe(),
        "the type field should hold a string"
    );
    assert_eq!(
        DocError::TemplateNotFound("nope".to_string()).describe(),
        "no template registered under the name nope"
    );
    assert_eq!(
        DocError::RenderFailure {
            template: "a".to_string(),
            message: "m".to_string(),
            context: toml::map::Map::new(),
        }
        .describe(),
        "failed to render template a: m"
    );
    assert_eq!(
        DocError::InvalidAssetsShape.describe(),
        "the assets field should be a single path or an array of paths"
    );
}
