use ss::listing::{render_directory_listing, ListingEntry};

fn entry(name: &str, is_dir: bool) -> ListingEntry {
    ListingEntry { name: name.to_string(), is_dir }
}

#[test]
fn scenario_c_listing_of_subdirectory() {
    let entries = vec![entry("b.txt", false), entry("c.txt", false)];
    let html = render_directory_listing("docs", &entries);
    assert!(html.starts_with("<!DOCTYPE html>"));
    assert!(html.contains("<title>Directory listing for /docs</title>"));
    assert!(html.contains("Index of /docs</h1>"));
    assert!(html.contains("<li>\u{1F4C1} <a href=\"..\">..</a></li>"));
    assert!(html.contains("<li>\u{1F4C4} <a href=\"/docs/b.txt\">b.txt</a></li>"));
    assert!(html.contains("<li>\u{1F4C4} <a href=\"/docs/c.txt\">c.txt</a></li>"));
    assert_eq!(html.matches("<li>").count(), 3);
    let parent = html.find("href=\"..\"").unwrap();
    let b = html.find("/docs/b.txt").unwrap();
    let c = html.find("/docs/c.txt").unwrap();
    assert!(parent < b && b < c);
    assert!(html.ends_with("</html>"));
}

#[test]
fn root_listing_has_no_parent_link() {
    let entries = vec![entry("docs", true), entry("a.txt", false)];
    let html = render_directory_listing("", &entries);
    assert!(!html.contains("href=\"..\""));
    assert!(html.contains("<li>\u{1F4C1} <a href=\"/docs\">docs</a></li>"));
    assert!(html.contains("<li>\u{1F4C4} <a href=\"/a.txt\">a.txt</a></li>"));
    assert_eq!(html.matches("<li>").count(), 2);
}

#[test]
fn empty_directory_listing() {
    let html = render_directory_listing("", &Vec::new());
    assert!(html.contains("<ul></ul>"));
    let html = render_directory_listing("x", &Vec::new());
    assert!(html.contains("<ul><li>\u{1F4C1} <a href=\"..\">..</a></li></ul>"));
}

#[test]
fn entries_keep_given_order_and_newlines() {
    let entries = vec![entry("z", false), entry("a", false)];
    let html = render_directory_listing("", &entries);
    assert!(html.contains("<a href=\"/z\">z</a></li>\n<li>\u{1F4C4} <a href=\"/a\">a</a></li></ul>"));
}
