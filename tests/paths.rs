use filerpc::{
    has_parent_component, is_within, join_path, resolve_in_root, resolve_local, sandbox_target, starts_with,
    strip_leading_separators, Code, MyFileService,
};

#[test]
fn strip_removes_every_leading_separator() {
    assert_eq!(strip_leading_separators("///docs/a"), "docs/a");
    assert_eq!(strip_leading_separators("docs/a/"), "docs/a/");
    assert_eq!(strip_leading_separators("/"), "");
    assert_eq!(strip_leading_separators(""), "");
}

#[test]
fn join_puts_one_separator_between() {
    assert_eq!(join_path("/home/u", "docs"), "/home/u/docs");
    assert_eq!(join_path("/home/u/", "docs"), "/home/u/docs");
    assert_eq!(join_path("/home/u", ""), "/home/u");
    assert_eq!(join_path("", "docs"), "/docs");
}

#[test]
fn within_compares_components() {
    assert!(is_within("/home/a", "/home/a"));
    assert!(is_within("/home/a", "/home/a/b/c"));
    assert!(!is_within("/home/a", "/home/ab"));
    assert!(!is_within("/home/a", "/etc"));
    assert!(!is_within("/home/a", "/home"));
    assert!(is_within("/", "/etc"));
}

#[test]
fn parent_components_are_found() {
    assert!(has_parent_component(".."));
    assert!(has_parent_component("../../etc"));
    assert!(has_parent_component("a/../b"));
    assert!(has_parent_component("a/.."));
    assert!(!has_parent_component("a..b/c"));
    assert!(!has_parent_component("..a/b"));
    assert!(!has_parent_component("a/b../"));
    assert!(!has_parent_component(""));
    assert!(!has_parent_component("."));
}

#[test]
fn prefix_test() {
    assert!(starts_with("http://x", "http://"));
    assert!(!starts_with("htt", "http://"));
    assert!(starts_with("abc", ""));
}

#[test]
fn request_path_is_joined_under_root() {
    assert_eq!(sandbox_target("/srv", "/"), "/srv");
    assert_eq!(sandbox_target("/srv", ""), "/srv");
    assert_eq!(sandbox_target("/srv", "/Documents/Photos"), "/srv/Documents/Photos");
    assert_eq!(sandbox_target("/srv", "Documents"), "/srv/Documents");
    assert_eq!(sandbox_target("/srv", "../../etc"), "/srv/../../etc");
}

#[test]
fn traversal_is_permission_denied_not_not_found() {
    // `/srv/../../etc` canonicalizes to `/etc`
    let r = resolve_in_root(Some("/srv"), Some("/etc"));
    assert_eq!(r.unwrap_err().code, Code::PermissionDenied);
    let r = resolve_in_root(Some("/srv/data"), Some("/srv/database"));
    assert_eq!(r.unwrap_err().code, Code::PermissionDenied);
}

#[test]
fn missing_path_is_not_found() {
    let r = resolve_in_root(Some("/srv"), None);
    assert_eq!(r.unwrap_err().code, Code::NotFound);
}

#[test]
fn broken_root_is_internal() {
    let r = resolve_in_root(None, Some("/srv/a"));
    assert_eq!(r.unwrap_err().code, Code::Internal);
    let r = resolve_in_root(None, None);
    assert_eq!(r.unwrap_err().code, Code::Internal);
}

#[test]
fn contained_path_resolves_to_itself() {
    assert_eq!(resolve_in_root(Some("/srv"), Some("/srv/a/b")).unwrap(), "/srv/a/b");
    assert_eq!(resolve_in_root(Some("/srv"), Some("/srv")).unwrap(), "/srv");
}

#[test]
fn service_listing_goes_through_the_guard() {
    let svc = MyFileService::new("/srv".to_string());
    assert_eq!(svc.base_path(), "/srv");
    assert_eq!(svc.listing_target("/a"), "/srv/a");
    assert_eq!(svc.resolve_listing(Some("/srv"), Some("/srv/a")).unwrap(), "/srv/a");
    assert_eq!(
        svc.resolve_listing(Some("/srv"), Some("/")).unwrap_err().code,
        Code::PermissionDenied
    );
}

#[test]
fn local_lookup_texts() {
    assert_eq!(
        resolve_local(Err("denied".to_string()), Ok("/h".to_string())).unwrap_err(),
        "Invalid base path: denied"
    );
    assert_eq!(
        resolve_local(Ok("/h".to_string()), Err("no such file".to_string())).unwrap_err(),
        "Directory not found or inaccessible: no such file"
    );
    assert_eq!(
        resolve_local(Ok("/home/u".to_string()), Ok("/etc".to_string())).unwrap_err(),
        "Access to this local path is restricted."
    );
    assert_eq!(
        resolve_local(Ok("/home/u".to_string()), Ok("/home/u/docs".to_string())).unwrap(),
        "/home/u/docs"
    );
}
