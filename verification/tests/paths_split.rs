use ssg::paths::extension_of;
use ssg::paths::file_name_of;
use ssg::paths::file_stem_of;
use ssg::paths::find_last;
use ssg::paths::join_path;
use ssg::paths::parent_of;
use ssg::paths::strip_path_prefix;
use ssg::paths::FileHandle;
use ssg::split::split_front_matter;

#[test]
fn join_absorbs_the_root() {
    assert_eq!(join_path("", "a/b"), "a/b");
    assert_eq!(join_path("docs", ""), "docs");
    assert_eq!(join_path("docs", "a/b/c.html"), "docs/a/b/c.html");
}

#[test]
fn find_last_picks_the_last_occurrence() {
    assert_eq!(find_last("a/b/c", '/'), Some(3));
    assert_eq!(find_last("abc", '/'), None);
    assert_eq!(find_last("", '.'), None);
}

#[test]
fn file_name_is_the_last_segment() {
    assert_eq!(file_name_of("a/b/c.html"), "c.html");
    assert_eq!(file_name_of("c.html"), "c.html");
    assert_eq!(file_name_of("a/b/"), "");
}

#[test]
fn extension_follows_the_last_dot() {
    assert_eq!(extension_of("a/b/c.html"), Some("html".to_string()));
    assert_eq!(extension_of("a/b.d/c"), None);
    assert_eq!(extension_of("archive.tar.gz"), Some("gz".to_string()));
    assert_eq!(extension_of(".hidden"), None);
    assert_eq!(extension_of("README"), None);
}

#[test]
fn stem_drops_the_extension() {
    assert_eq!(file_stem_of("templates/article.hbs"), "article");
    assert_eq!(file_stem_of("article"), "article");
    assert_eq!(file_stem_of(".hidden"), ".hidden");
    assert_eq!(file_stem_of("a.tar.gz"), "a.tar");
}

#[test]
fn parent_is_everything_before_the_name() {
    assert_eq!(parent_of("a/b/c.html"), "a/b");
    assert_eq!(parent_of("c.html"), "");
}

#[test]
fn strip_prefix_needs_a_whole_segment() {
    assert_eq!(strip_path_prefix("src/a/b.html", "src"), Some("a/b.html".to_string()));
    assert_eq!(strip_path_prefix("src", "src"), Some("".to_string()));
    assert_eq!(strip_path_prefix("srcdir/a", "src"), None);
    assert_eq!(strip_path_prefix("other/a", "src"), None);
    assert_eq!(strip_path_prefix("a/b", ""), Some("a/b".to_string()));
}

#[test]
fn handles_mirror_the_relative_path() {
    let h = FileHandle {
        file: "a/b/c.html".to_string(),
        in_dir: "src".to_string(),
        out_dir: "docs".to_string(),
    };
    assert_eq!(h.in_file(), "src/a/b/c.html");
    assert_eq!(h.out_file(), "docs/a/b/c.html");
}

#[test]
fn assets_resolve_relative_to_the_document() {
    let h = FileHandle {
        file: "blog/post.html".to_string(),
        in_dir: "src".to_string(),
        out_dir: "docs".to_string(),
    };
    let a = h.asset_handle("img/logo.png");
    assert_eq!(a.file, "blog/img/logo.png");
    assert_eq!(a.in_file(), "src/blog/img/logo.png");
    assert_eq!(a.out_file(), "docs/blog/img/logo.png");
}

#[test]
fn split_cuts_at_the_delimiter() {
    let (meta, body) = split_front_matter("template = \"custom\"\n*** ssg ***\nHello");
    assert_eq!(meta, "template = \"custom\"\n");
    assert_eq!(body, "Hello");
}

#[test]
fn split_without_delimiter_is_all_body() {
    let (meta, body) = split_front_matter("Hello world");
    assert_eq!(meta, "");
    assert_eq!(body, "Hello world");
}

#[test]
fn split_of_a_leading_delimiter_has_empty_front_matter() {
    let (meta, body) = split_front_matter("*** ssg ***\nBody");
    assert_eq!(meta, "");
    assert_eq!(body, "Body");
}

#[test]
fn split_takes_the_first_delimiter() {
    let (meta, body) = split_front_matter("a\n*** ssg ***\nb\n*** ssg ***\nc");
    assert_eq!(meta, "a\n");
    assert_eq!(body, "b\n*** ssg ***\nc");
}

#[test]
fn split_of_the_bare_delimiter_is_empty_on_both_sides() {
    let (meta, body) = split_front_matter("*** ssg ***\n");
    assert_eq!(meta, "");
    assert_eq!(body, "");
}

#[test]
fn split_of_the_empty_document_is_empty() {
    let (meta, body) = split_front_matter("");
    assert_eq!(meta, "");
    assert_eq!(body, "");
}
