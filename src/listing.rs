use vstd::prelude::*;

verus! {

/// The page up to the title's path.
pub const PAGE_START: &'static str = "<!DOCTYPE html>
<html>
<head>
    <meta charset=\"utf-8\">
    <title>Directory listing for /";

/// From the end of the title to the heading's path.
pub const PAGE_HEADING: &'static str = "</title>
    <style>
        body { font-family: monospace; max-width: 800px; margin: 50px auto; padding: 0 20px; }
        h1 { color: #333; }
        ul { list-style: none; padding: 0; }
        li { padding: 8px; border-bottom: 1px solid #eee; }
        li:hover { background-color: #f5f5f5; }
        a { text-decoration: none; color: #0066cc; }
        a:hover { text-decoration: underline; }
    </style>
</head>
<body>
    <h1>\u{1F4C2} Index of /";

/// From the end of the heading to the first entry.
pub const PAGE_LIST: &'static str = "</h1>
    <ul>";

/// From the last entry to the end of the page.
pub const PAGE_END: &'static str = "</ul>
    <hr>
    <footer><small>SS File Server</small></footer>
</body>
</html>";

/// The entry that links to the parent directory.
pub const PARENT_LINE: &'static str = "<li>\u{1F4C1} <a href=\"..\">..</a></li>";

/// The marker of a directory entry.
pub const DIR_ICON: &'static str = "\u{1F4C1}";

/// The marker of a file entry.
pub const FILE_ICON: &'static str = "\u{1F4C4}";

/// One child of a listed directory.
#[derive(Clone, Debug)]
pub struct ListingEntry {
    /// The child's file name.
    pub name: String,
    /// Whether the child is a directory.
    pub is_dir: bool,
}

/// The names and kinds of `v`.
pub open spec fn entry_views(v: Seq<ListingEntry>) -> Seq<(Seq<char>, bool)> {
    v.map_values(|e: ListingEntry| (e.name@, e.is_dir))
}

/// The marker shown before an entry.
pub open spec fn icon(is_dir: bool) -> Seq<char> {
    if is_dir {
        DIR_ICON@
    } else {
        FILE_ICON@
    }
}

/// The link to the child `name` of the directory shown at path `p`.
pub open spec fn link(p: Seq<char>, name: Seq<char>) -> Seq<char> {
    if p.len() == 0 {
        "/"@ + name
    } else {
        "/"@ + p + "/"@ + name
    }
}

/// The list item of the child `name` of the directory shown at path `p`.
pub open spec fn entry_line(p: Seq<char>, name: Seq<char>, is_dir: bool) -> Seq<char> {
    "<li>"@ + icon(is_dir) + " <a href=\""@ + link(p, name) + "\">"@ + name + "</a></li>"@
}

/// The list items of the directory shown at path `p`: the parent link unless
/// `p` is the root, then one item per child, in the order given.
pub open spec fn listing_items(p: Seq<char>, entries: Seq<(Seq<char>, bool)>) -> Seq<Seq<char>> {
    let parent = if p.len() == 0 {
        Seq::<Seq<char>>::empty()
    } else {
        seq![PARENT_LINE@]
    };
    parent + entries.map_values(|e: (Seq<char>, bool)| entry_line(p, e.0, e.1))
}

/// The lines of `lines` with a newline between each two.
pub open spec fn joined_lines(lines: Seq<Seq<char>>) -> Seq<char>
    decreases lines.len(),
{
    if lines.len() == 0 {
        Seq::empty()
    } else if lines.len() == 1 {
        lines[0]
    } else {
        joined_lines(lines.drop_last()) + "\n"@ + lines.last()
    }
}

/// The whole listing page of the directory shown at path `p`.
pub open spec fn listing_html(p: Seq<char>, entries: Seq<(Seq<char>, bool)>) -> Seq<char> {
    PAGE_START@ + p + PAGE_HEADING@ + p + PAGE_LIST@ + joined_lines(listing_items(p, entries))
        + PAGE_END@
}

/// How many parent links the listing of the directory shown at `p` holds.
pub open spec fn parent_links(p: Seq<char>) -> int {
    if p.len() == 0 {
        0
    } else {
        1
    }
}

/// A listing holds one item per child, plus the parent link exactly when the
/// directory is not the served root; the item of each child is its link line.
pub proof fn lemma_listing_items(p: Seq<char>, entries: Seq<(Seq<char>, bool)>)
    ensures
        listing_items(p, entries).len() == entries.len() + parent_links(p),
        p.len() > 0 ==> listing_items(p, entries)[0] == PARENT_LINE@,
        forall|i: int|
            0 <= i < entries.len() ==> listing_items(p, entries)[i + parent_links(p)]
                == entry_line(p, #[trigger] entries[i].0, entries[i].1),
{
}

/// The list item of the child `name`, `is_dir` of the directory shown at `p`.
fn render_entry(p: &str, name: &str, is_dir: bool) -> (r: String)
    ensures
        r@ == entry_line(p@, name@, is_dir),
{
    let mut r = String::from_str("<li>");
    if is_dir {
        r.append(DIR_ICON);
    } else {
        r.append(FILE_ICON);
    }
    r.append(" <a href=\"");
    r.append("/");
    if p.unicode_len() > 0 {
        r.append(p);
        r.append("/");
    }
    r.append(name);
    r.append("\">");
    r.append(name);
    r.append("</a></li>");
    r
}

/// The list items of the directory shown at `p`, holding `entries`.
pub fn listing_lines(p: &str, entries: &Vec<ListingEntry>) -> (r: Vec<String>)
    ensures
        crate::path::views(r@) == listing_items(p@, entry_views(entries@)),
{
    let mut r: Vec<String> = Vec::new();
    let has_parent = p.unicode_len() > 0;
    if has_parent {
        r.push(String::from_str(PARENT_LINE));
    }
    let ghost parent = crate::path::views(r@);
    let mut k: usize = 0;
    while k < entries.len()
        invariant
            k <= entries.len(),
            has_parent == (p@.len() > 0),
            parent == if p@.len() == 0 {
                Seq::<Seq<char>>::empty()
            } else {
                seq![PARENT_LINE@]
            },
            crate::path::views(r@) == parent + entry_views(entries@).subrange(
                0,
                k as int,
            ).map_values(|e: (Seq<char>, bool)| entry_line(p@, e.0, e.1)),
        decreases entries.len() - k,
    {
        let ghost before = r@;
        let line = render_entry(p, entries[k].name.as_str(), entries[k].is_dir);
        r.push(line);
        assert(crate::path::views(r@) =~= crate::path::views(before).push(line@));
        assert(entry_views(entries@).subrange(0, k as int + 1).map_values(
            |e: (Seq<char>, bool)| entry_line(p@, e.0, e.1),
        ) =~= entry_views(entries@).subrange(0, k as int).map_values(
            |e: (Seq<char>, bool)| entry_line(p@, e.0, e.1),
        ).push(line@));
        k = k + 1;
    }
    assert(entry_views(entries@).subrange(0, entries.len() as int) =~= entry_views(entries@));
    r
}

/// The lines of `lines` with a newline between each two.
pub fn join_lines(lines: &Vec<String>) -> (r: String)
    ensures
        r@ == joined_lines(crate::path::views(lines@)),
{
    let mut r = String::new();
    let mut k: usize = 0;
    assert(crate::path::views(lines@).subrange(0, 0) =~= Seq::<Seq<char>>::empty());
    while k < lines.len()
        invariant
            k <= lines.len(),
            r@ == joined_lines(crate::path::views(lines@).subrange(0, k as int)),
        decreases lines.len() - k,
    {
        proof {
            let t = crate::path::views(lines@).subrange(0, k as int + 1);
            assert(t.drop_last() =~= crate::path::views(lines@).subrange(0, k as int));
            if k == 0 {
                assert(Seq::<char>::empty() + lines@[0]@ =~= lines@[0]@);
            }
        }
        if k > 0 {
            r.append("\n");
        }
        r.append(lines[k].as_str());
        k = k + 1;
    }
    assert(crate::path::views(lines@).subrange(0, lines.len() as int) =~= crate::path::views(
        lines@,
    ));
    r
}

/// The HTML page that lists `entries`, the children of the directory shown at
/// request path `p` (without its leading `/`).
pub fn render_directory_listing(p: &str, entries: &Vec<ListingEntry>) -> (r: String)
    ensures
        r@ == listing_html(p@, entry_views(entries@)),
{
    let lines = listing_lines(p, entries);
    let body = join_lines(&lines);
    let mut r = String::from_str(PAGE_START);
    r.append(p);
    r.append(PAGE_HEADING);
    r.append(p);
    r.append(PAGE_LIST);
    r.append(body.as_str());
    r.append(PAGE_END);
    r
}

} // verus!
