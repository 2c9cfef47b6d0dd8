use vstd::prelude::*;

use crate::path::{
    apply_segments, components, is_parent, is_within, lemma_no_parent_stays_within,
    path_components, resolve_from, segments, split_segments, views,
};

verus! {

/// The status a request ends with.
#[derive(PartialEq, Eq, Structural, Clone, Copy, Debug)]
pub enum Status {
    Success,
    Forbidden,
    NotFound,
    InternalServerError,
}

impl Status {
    /// The HTTP status code.
    pub open spec fn spec_code(self) -> u16 {
        match self {
            Status::Success => 200,
            Status::Forbidden => 403,
            Status::NotFound => 404,
            Status::InternalServerError => 500,
        }
    }

    /// The HTTP status code.
    pub fn code(self) -> (r: u16)
        ensures
            r == self.spec_code(),
    {
        match self {
            Status::Success => 200,
            Status::Forbidden => 403,
            Status::NotFound => 404,
            Status::InternalServerError => 500,
        }
    }
}

/// State shared, read-only, by every request: the served root directory.
#[derive(Clone)]
pub struct AppState {
    /// The canonical (absolute, symlink-free) path of the served directory.
    pub root_path: String,
}

impl AppState {
    /// The components of the served root.
    pub open spec fn root(&self) -> Seq<Seq<char>> {
        components(self.root_path@)
    }

    /// The components that a request for `uri_path` resolves to: the request's
    /// segments applied one by one on top of the root.
    pub open spec fn target(&self, uri_path: Seq<char>) -> Seq<Seq<char>> {
        resolve_from(self.root(), segments(uri_path))
    }

    /// Maps a request path to the components of the file system entry it names.
    /// The request is refused exactly when that entry lies outside the root.
    pub fn resolve_request(&self, uri_path: &str) -> (r: Result<Vec<String>, Status>)
        ensures
            is_within(self.root(), self.target(uri_path@)) <==> r is Ok,
            r is Ok ==> views(r->Ok_0@) == self.target(uri_path@),
            r is Err ==> r->Err_0 == Status::Forbidden,
    {
        let root = path_components(self.root_path.as_str());
        let mut target = path_components(self.root_path.as_str());
        let segs = split_segments(uri_path);
        apply_segments(&mut target, &segs);
        if crate::path::within(&root, &target) {
            Ok(target)
        } else {
            Err(Status::Forbidden)
        }
    }

    /// Checks the canonical (symlink-resolved) path of an existing target
    /// against the root: a target that resolves outside it is refused.
    pub fn check_canonical(&self, canonical: &str) -> (r: Result<(), Status>)
        ensures
            r is Ok <==> is_within(self.root(), components(canonical@)),
            r is Err ==> r->Err_0 == Status::Forbidden,
    {
        let root = path_components(self.root_path.as_str());
        let target = path_components(canonical);
        if crate::path::within(&root, &target) {
            Ok(())
        } else {
            Err(Status::Forbidden)
        }
    }
}

/// A request path without any `..` segment always resolves inside the root,
/// so `resolve_request` never refuses it.
pub proof fn lemma_plain_request_is_not_forbidden(state: &AppState, uri_path: Seq<char>)
    requires
        forall|i: int|
            0 <= i < segments(uri_path).len() ==> !is_parent(#[trigger] segments(uri_path)[i]),
    ensures
        is_within(state.root(), state.target(uri_path)),
{
    lemma_no_parent_stays_within(state.root(), segments(uri_path));
}

/// What the file system holds at a resolved target.
#[derive(PartialEq, Eq, Structural, Clone, Copy, Debug)]
pub enum Probe {
    /// Nothing.
    Missing,
    /// A file (or anything that is not a directory).
    File,
    /// A directory; `has_index` tells whether it holds `index.html`.
    Directory { has_index: bool },
}

/// What to answer for a resolved target.
#[derive(PartialEq, Eq, Debug)]
pub enum Plan {
    /// Answer `404 Not Found`.
    NotFound,
    /// Stream the file with these components.
    ServeFile(Vec<String>),
    /// Render a listing of the target directory.
    ListDirectory,
}

/// The file name of a directory's index page.
pub open spec fn index_name() -> Seq<char> {
    "index.html"@
}

/// Chooses the answer for `target`, given what the file system holds there.
/// A directory is answered with its `index.html` when it has one, with a
/// listing otherwise.
pub fn decide(target: Vec<String>, probe: Probe) -> (r: Plan)
    ensures
        probe == Probe::Missing ==> r == Plan::NotFound,
        probe == Probe::File ==> r is ServeFile && views(r->ServeFile_0@) == views(target@),
        probe == (Probe::Directory { has_index: true }) ==> r is ServeFile && views(
            r->ServeFile_0@,
        ) == views(target@).push(index_name()),
        probe == (Probe::Directory { has_index: false }) ==> r == Plan::ListDirectory,
{
    match probe {
        Probe::Missing => Plan::NotFound,
        Probe::File => Plan::ServeFile(target),
        Probe::Directory { has_index } => {
            if has_index {
                let mut t = target;
                let ghost before = t@;
                t.push(String::from_str("index.html"));
                assert(views(t@) =~= views(before).push(index_name()));
                Plan::ServeFile(t)
            } else {
                Plan::ListDirectory
            }
        },
    }
}

/// The media type that mime_guess registers for the extension of `path`,
/// or `application/octet-stream` where it registers none.
pub uninterp spec fn mime_for_path(path: Seq<char>) -> Seq<char>;

/// Relies on `mime_guess::from_path(path).first_or_octet_stream()`: the guess
/// depends on the path text alone (no disk access), and a path without any
/// `.` has no extension, so it gets `application/octet-stream`.
#[verifier::external_body]
fn guess_content_type(path: &str) -> (r: String)
    ensures
        r@ == mime_for_path(path@),
        !path@.contains('.') ==> r@ == "application/octet-stream"@,
{
    mime_guess::from_path(path).first_or_octet_stream().to_string()
}

/// The headers of a file response.
#[derive(Clone, Debug)]
pub struct FileHead {
    /// The `Content-Type` header.
    pub content_type: String,
    /// The `Content-Length` header: the file's size in bytes.
    pub content_length: u64,
}

/// The answer for a file at `path`, given whether it could be opened and its
/// size, when its metadata could be read. A file that cannot be opened is not
/// found; one whose metadata cannot be read is an internal error.
pub fn file_response(path: &str, opened: bool, size: Option<u64>) -> (r: Result<FileHead, Status>)
    ensures
        !opened ==> r == Err::<FileHead, Status>(Status::NotFound),
        opened && size is None ==> r == Err::<FileHead, Status>(Status::InternalServerError),
        opened && size is Some ==> r is Ok,
        r is Ok ==> r->Ok_0.content_type@ == mime_for_path(path@) && r->Ok_0.content_length
            == size->Some_0,
{
    if !opened {
        return Err(Status::NotFound);
    }
    match size {
        None => Err(Status::InternalServerError),
        Some(n) => Ok(FileHead { content_type: guess_content_type(path), content_length: n }),
    }
}

} // verus!
