use server::route;
use server::Decision;

fn path(s: &str) -> Vec<u8> {
    s.as_bytes().to_vec()
}

fn served_file(d: &Decision) -> Option<&[u8]> {
    match d {
        Decision::StaticFile(rest) => Some(rest.as_slice()),
        _ => None,
    }
}

#[test]
fn root_path_is_served_the_page() {
    assert!(matches!(route(&path("/")), Decision::Page));
}

#[test]
fn empty_path_is_served_the_page() {
    assert!(matches!(route(&path("")), Decision::Page));
}

#[test]
fn multi_segment_path_is_served_the_page() {
    assert!(matches!(route(&path("/foo/bar/baz")), Decision::Page));
}

#[test]
fn path_merely_prefixed_by_static_is_served_the_page() {
    assert!(matches!(route(&path("/staticfoo")), Decision::Page));
}

#[test]
fn path_merely_prefixed_by_api_is_served_the_page() {
    assert!(matches!(route(&path("/apifoo")), Decision::Page));
}

#[test]
fn static_file_is_dispatched_to_its_remainder() {
    let d = route(&path("/static/a.txt"));
    assert_eq!(served_file(&d), Some(b"a.txt".as_slice()));
}

#[test]
fn nested_static_file_keeps_its_whole_remainder() {
    let d = route(&path("/static/css/site.css"));
    assert_eq!(served_file(&d), Some(b"css/site.css".as_slice()));
}

#[test]
fn static_mount_alone_is_not_found() {
    assert!(matches!(route(&path("/static")), Decision::NotFound));
    assert!(matches!(route(&path("/static/")), Decision::NotFound));
}

#[test]
fn api_paths_are_not_found() {
    assert!(matches!(route(&path("/api")), Decision::NotFound));
    assert!(matches!(route(&path("/api/")), Decision::NotFound));
    assert!(matches!(route(&path("/api/b")), Decision::NotFound));
    assert!(matches!(route(&path("/api/v1/users")), Decision::NotFound));
}

#[test]
fn leading_traversal_is_rejected() {
    assert!(matches!(route(&path("/static/../secret")), Decision::NotFound));
}

#[test]
fn inner_traversal_is_rejected() {
    assert!(matches!(route(&path("/static/a/../b")), Decision::NotFound));
}

#[test]
fn bare_traversal_is_rejected() {
    assert!(matches!(route(&path("/static/..")), Decision::NotFound));
}

#[test]
fn trailing_traversal_is_rejected() {
    assert!(matches!(route(&path("/static/a/..")), Decision::NotFound));
}

#[test]
fn dot_segment_is_rejected() {
    assert!(matches!(route(&path("/static/./x")), Decision::NotFound));
    assert!(matches!(route(&path("/static/.")), Decision::NotFound));
}

#[test]
fn empty_segment_is_rejected() {
    assert!(matches!(route(&path("/static//x")), Decision::NotFound));
    assert!(matches!(route(&path("/static/x//y")), Decision::NotFound));
}

#[test]
fn trailing_slash_on_file_is_rejected() {
    assert!(matches!(route(&path("/static/x/")), Decision::NotFound));
}

#[test]
fn dots_inside_a_name_are_allowed() {
    let d = route(&path("/static/a..b"));
    assert_eq!(served_file(&d), Some(b"a..b".as_slice()));
    let d = route(&path("/static/..."));
    assert_eq!(served_file(&d), Some(b"...".as_slice()));
}
