//! A file server for containers: container paths become host paths, and every outcome of a read
//! becomes an HTTP answer.

use vstd::prelude::*;

use crate::paths::{join_path, path_joined};
use crate::text::{has_prefix, opt_view, strip_prefix, strip_start, trim_char_start, without_prefix};

verus! {

/// Container prefixes and the host directories that they stand for, in the order in which they
/// are tried.
pub open spec fn mapping_views(mappings: Seq<(String, String)>) -> Seq<(Seq<char>, Seq<char>)> {
    mappings.map_values(|m: (String, String)| (m.0@, m.1@))
}

/// The host path of a container path, by the first mapping from position `i` on whose prefix the
/// path has; the path itself where none has.
pub open spec fn remapped(path: Seq<char>, mappings: Seq<(Seq<char>, Seq<char>)>, i: nat) -> Seq<char>
    decreases mappings.len() - i,
{
    if i >= mappings.len() {
        path
    } else {
        match without_prefix(path, mappings[i as int].0) {
            Some(suffix) => path_joined(mappings[i as int].1, trim_char_start(suffix, '/')),
            None => remapped(path, mappings, i + 1),
        }
    }
}

/// The host path of a container path.
pub fn remap_path(path: &str, mappings: &Vec<(String, String)>) -> (r: String)
    ensures
        r@ == remapped(path@, mapping_views(mappings@), 0),
{
    let ghost ms = mapping_views(mappings@);
    let mut i: usize = 0;
    while i < mappings.len()
        invariant
            i <= mappings.len(),
            ms == mapping_views(mappings@),
            remapped(path@, ms, i as nat) == remapped(path@, ms, 0),
        decreases mappings.len() - i,
    {
        assert(ms[i as int] == (mappings@[i as int].0@, mappings@[i as int].1@));
        match strip_prefix(path, mappings[i].0.as_str()) {
            Some(suffix) => {
                return join_path(
                    mappings[i].1.as_str(),
                    strip_start(suffix.as_str(), '/').as_str(),
                );
            },
            None => {},
        }
        i = i + 1;
    }
    path.to_owned()
}

/// Where exactly one mapping has a prefix of the path, it decides the host path, whatever the
/// order in which the mappings are tried.
pub proof fn law_remapping_order(
    path: Seq<char>,
    mappings: Seq<(Seq<char>, Seq<char>)>,
    i: nat,
    k: nat,
)
    requires
        i <= k < mappings.len(),
        has_prefix(path, mappings[k as int].0),
        forall|j: int|
            i <= j < mappings.len() && j != k ==> !has_prefix(path, (#[trigger] mappings[j]).0),
    ensures
        remapped(path, mappings, i) == path_joined(
            mappings[k as int].1,
            trim_char_start(without_prefix(path, mappings[k as int].0)->0, '/'),
        ),
    decreases k - i,
{
    if i < k {
        assert(!has_prefix(path, mappings[i as int].0));
        law_remapping_order(path, mappings, i + 1, k);
    }
}

/// The workspace that a read refers to: the pinned repository where there is one.
pub fn workspace_root(git_repo: &Option<String>, requested: Option<String>) -> (r: Option<String>)
    ensures
        opt_view(r) == (match *git_repo {
            Some(repo) => Some(repo@),
            None => opt_view(requested),
        }),
{
    match git_repo {
        Some(repo) => Some(repo.clone()),
        None => requested,
    }
}

/// Why a file could not be read.
#[derive(Debug)]
pub enum FileServingError {
    NotFound,
    EmptyPath,
    RelativePath,
    TooLarge,
    ReadError { message: String },
}

/// The HTTP status and the body of the answer to a read.
pub open spec fn read_answer(outcome: Result<String, FileServingError>) -> (u16, Seq<char>) {
    match outcome {
        Ok(body) => (200, body@),
        Err(FileServingError::NotFound) => (404, Seq::empty()),
        Err(FileServingError::EmptyPath) => (400, "Missing path"@),
        Err(FileServingError::RelativePath) => (400, "Path must be absolute"@),
        Err(FileServingError::TooLarge) => (413, "File too large"@),
        Err(FileServingError::ReadError { message }) => (500, message@),
    }
}

/// The HTTP status and the body of the answer to a read.
pub fn answer_read(outcome: Result<String, FileServingError>) -> (r: (u16, String))
    ensures
        (r.0, r.1@) == read_answer(outcome),
{
    match outcome {
        Ok(body) => (200, body),
        Err(FileServingError::NotFound) => (404, String::new()),
        Err(FileServingError::EmptyPath) => (400, "Missing path".to_owned()),
        Err(FileServingError::RelativePath) => (400, "Path must be absolute".to_owned()),
        Err(FileServingError::TooLarge) => (413, "File too large".to_owned()),
        Err(FileServingError::ReadError { message }) => (500, message),
    }
}

/// Only a file that was read is answered with success. What the asker did wrong is answered with a
/// status of the four hundreds, and what went wrong here with one of the five hundreds.
pub proof fn law_read_statuses(outcome: Result<String, FileServingError>)
    ensures
        read_answer(outcome).0 == 200 <==> outcome is Ok,
        outcome matches Ok(body) ==> read_answer(outcome).1 == body@,
        outcome matches Err(e) ==> {
            &&& e is ReadError <==> read_answer(outcome).0 >= 500
            &&& e is ReadError ==> read_answer(outcome).1 == e->message@
            &&& e is NotFound <==> read_answer(outcome).0 == 404
            &&& e is TooLarge <==> read_answer(outcome).0 == 413
            &&& e is EmptyPath || e is RelativePath <==> read_answer(outcome).0 == 400
        },
{
}

/// A path that no mapping has a prefix of stays as it is.
pub proof fn law_unmapped_paths(path: Seq<char>, mappings: Seq<(Seq<char>, Seq<char>)>, i: nat)
    requires
        forall|j: int| i <= j < mappings.len() ==> !has_prefix(path, (#[trigger] mappings[j]).0),
    ensures
        remapped(path, mappings, i) == path,
    decreases mappings.len() - i,
{
    if i < mappings.len() {
        assert(!has_prefix(path, mappings[i as int].0));
        law_unmapped_paths(path, mappings, i + 1);
    }
}

} // verus!
