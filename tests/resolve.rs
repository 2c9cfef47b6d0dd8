use ss::handler::{decide, file_response, AppState, Plan, Probe, Status};
use ss::path::{path_components, split_segments, to_path_text, trim_leading_slashes, within};

fn srv() -> AppState {
    AppState { root_path: "/srv".to_string() }
}

fn strings(v: &[&str]) -> Vec<String> {
    v.iter().map(|s| s.to_string()).collect()
}

#[test]
fn scenario_a_file_is_served() {
    let state = srv();
    let target = state.resolve_request("/a.txt").unwrap();
    assert_eq!(target, strings(&["srv", "a.txt"]));
    assert_eq!(to_path_text(&target), "/srv/a.txt");
    let plan = decide(target, Probe::File);
    assert_eq!(plan, Plan::ServeFile(strings(&["srv", "a.txt"])));
    let head = file_response("/srv/a.txt", true, Some(5)).ok().unwrap();
    assert_eq!(head.content_type, "text/plain");
    assert_eq!(head.content_length, 5);
    assert_eq!(Status::Success.code(), 200);
}

#[test]
fn scenario_b_escape_is_forbidden() {
    let state = srv();
    let r = state.resolve_request("/../etc/passwd");
    assert_eq!(r, Err(Status::Forbidden));
    assert_eq!(Status::Forbidden.code(), 403);
}

#[test]
fn scenario_d_missing_is_not_found() {
    let state = srv();
    let target = state.resolve_request("/missing.txt").unwrap();
    assert_eq!(decide(target, Probe::Missing), Plan::NotFound);
    assert_eq!(Status::NotFound.code(), 404);
}

#[test]
fn inside_paths_are_never_forbidden() {
    let state = srv();
    for p in ["/", "", "/docs/", "/docs/../a.txt", "//x//y/./z", "/a/b/../../c", "/.."] {
        let r = state.resolve_request(p);
        if p == "/.." {
            assert_eq!(r, Err(Status::Forbidden));
        } else {
            assert!(r.is_ok(), "{}", p);
        }
    }
    assert_eq!(state.resolve_request("/docs/../a.txt").unwrap(), strings(&["srv", "a.txt"]));
    assert_eq!(state.resolve_request("/").unwrap(), strings(&["srv"]));
}

#[test]
fn deep_escapes_are_forbidden() {
    let state = srv();
    assert_eq!(state.resolve_request("/a/../../etc"), Err(Status::Forbidden));
    assert_eq!(state.resolve_request("/a/b/../../../srv2"), Err(Status::Forbidden));
    // leaving and re-entering the root resolves inside it
    assert_eq!(state.resolve_request("/../srv/a.txt").unwrap(), strings(&["srv", "a.txt"]));
}

#[test]
fn top_level_root_contains_everything() {
    let state = AppState { root_path: "/".to_string() };
    assert_eq!(state.resolve_request("/../etc/passwd").unwrap(), strings(&["etc", "passwd"]));
}

#[test]
fn directory_with_index_serves_index() {
    let target = strings(&["srv", "docs"]);
    let plan = decide(target, Probe::Directory { has_index: true });
    assert_eq!(plan, Plan::ServeFile(strings(&["srv", "docs", "index.html"])));
}

#[test]
fn directory_without_index_is_listed() {
    let target = strings(&["srv", "docs"]);
    assert_eq!(decide(target, Probe::Directory { has_index: false }), Plan::ListDirectory);
}

#[test]
fn file_that_cannot_be_opened_is_not_found() {
    assert!(matches!(file_response("/srv/a.txt", false, Some(3)), Err(Status::NotFound)));
}

#[test]
fn unreadable_metadata_is_internal_error() {
    assert!(matches!(file_response("/srv/a.txt", true, None), Err(Status::InternalServerError)));
    assert_eq!(Status::InternalServerError.code(), 500);
}

#[test]
fn content_length_matches_size() {
    let head = file_response("/srv/big.bin", true, Some(1 << 40)).ok().unwrap();
    assert_eq!(head.content_length, 1 << 40);
    assert_eq!(head.content_type, "application/octet-stream");
}

#[test]
fn content_type_follows_extension() {
    assert_eq!(file_response("/srv/index.html", true, Some(0)).ok().unwrap().content_type, "text/html");
    assert_eq!(file_response("/srv/README", true, Some(0)).ok().unwrap().content_type, "application/octet-stream");
}

#[test]
fn canonical_target_outside_root_is_forbidden() {
    let state = srv();
    assert_eq!(state.check_canonical("/etc/passwd"), Err(Status::Forbidden));
    assert_eq!(state.check_canonical("/srv2/a"), Err(Status::Forbidden));
    assert_eq!(state.check_canonical("/srv/docs/b.txt"), Ok(()));
    assert_eq!(state.check_canonical("/srv"), Ok(()));
}

#[test]
fn segments_split_at_every_slash() {
    assert_eq!(split_segments("/a//b/"), strings(&["", "a", "", "b", ""]));
    assert_eq!(split_segments(""), strings(&[""]));
}

#[test]
fn components_resolve_dots() {
    assert_eq!(path_components("/a/./b/../c"), strings(&["a", "c"]));
    assert_eq!(path_components("/.."), Vec::<String>::new());
    assert_eq!(to_path_text(&Vec::new()), "/");
}

#[test]
fn containment_is_by_component() {
    assert!(within(&strings(&["srv"]), &strings(&["srv", "x"])));
    assert!(within(&strings(&["srv"]), &strings(&["srv"])));
    assert!(!within(&strings(&["srv"]), &strings(&["srvx"])));
    assert!(!within(&strings(&["srv", "x"]), &strings(&["srv"])));
}

#[test]
fn leading_slashes_are_trimmed() {
    assert_eq!(trim_leading_slashes("///docs/x"), "docs/x");
    assert_eq!(trim_leading_slashes("/"), "");
    assert_eq!(trim_leading_slashes("docs"), "docs");
}
