//! Reading the answers of the repository queries: the text of a query's
//! output, the name of the top-level directory, and the current ref.

use std::path::Path;
use vstd::prelude::*;
use crate::text::{decode_lossy, lossy_text, trim_text, trimmed};

verus! {

pub open spec fn opt_view(o: Option<String>) -> Option<Seq<char>> {
    match o {
        Some(s) => Some(s@),
        None => None,
    }
}

/// The answer of a query: its output, decoded and trimmed, when the query
/// succeeded and that text is not empty.
pub open spec fn query_text(ok: bool, out: Seq<u8>) -> Option<Seq<char>> {
    let t = trimmed(lossy_text(out));
    if ok && t.len() > 0 {
        Some(t)
    } else {
        None
    }
}

/// Turns what a query printed into its answer. `ok` is whether the query ran
/// and exited successfully.
pub fn query_result(ok: bool, out: &[u8]) -> (r: Option<String>)
    ensures
        opt_view(r) == query_text(ok, out@),
{
    if !ok {
        return None;
    }
    let text = decode_lossy(out);
    let t = trim_text(text.as_str());
    if t.unicode_len() == 0 {
        None
    } else {
        Some(t.to_owned())
    }
}

/// The last component of a path, as `std::path::Path::file_name` reads it:
/// none where the path ends in no name (a root, `.` or `..`).
pub uninterp spec fn file_name_of(p: Seq<char>) -> Option<Seq<char>>;

/// Relies on `std::path::Path::file_name`: the final component of the path,
/// if there is one, none where the path ends in `..`. The result depends on
/// the path alone; the path comes from a `str`, so the lossy conversion back
/// to text keeps the name as it is.
#[verifier::external_body]
fn file_name(p: &str) -> (r: Option<String>)
    ensures
        opt_view(r) == file_name_of(p@),
{
    Path::new(p).file_name().map(|n| n.to_string_lossy().into_owned())
}

/// The name of a repository, from the path of its top-level directory.
pub fn repo_root_name(toplevel: &str) -> (r: Option<String>)
    ensures
        opt_view(r) == file_name_of(toplevel@),
{
    file_name(toplevel)
}

pub open spec fn head_token() -> Seq<char> {
    seq!['H', 'E', 'A', 'D']
}

/// The ref query names no branch: it failed, printed nothing, or printed
/// `HEAD` (a detached checkout).
pub open spec fn is_detached(answer: Option<Seq<char>>) -> bool {
    match answer {
        Some(h) => h.len() == 0 || h == head_token(),
        None => true,
    }
}

/// The current ref: the branch that the ref query named, or else the name
/// that the fallback query found, or none; never `HEAD`.
pub open spec fn resolved_ref(primary: Option<Seq<char>>, fallback: Option<Seq<char>>) -> Option<
    Seq<char>,
> {
    if !is_detached(primary) {
        primary
    } else if !is_detached(fallback) {
        fallback
    } else {
        None
    }
}

/// Whether an answer of the ref query names no branch, so that the fallback
/// query, for the nearest named ref that contains the current commit, has to
/// run; of the fallback's own answer, whether it names nothing.
pub fn needs_fallback(answer: &Option<String>) -> (r: bool)
    ensures
        r == is_detached(opt_view(*answer)),
{
    match answer {
        None => true,
        Some(h) => {
            let s = h.as_str();
            let n = s.unicode_len();
            if n == 0 {
                return true;
            }
            let is_head = n == 4 && s.get_char(0) == 'H' && s.get_char(1) == 'E' && s.get_char(2)
                == 'A' && s.get_char(3) == 'D';
            if is_head {
                assert(s@ =~= head_token());
            } else {
                assert(s@ != head_token()) by {
                    if s@ == head_token() {
                        assert(s@[0] == 'H' && s@[1] == 'E' && s@[2] == 'A' && s@[3] == 'D');
                    }
                }
            }
            is_head
        },
    }
}

/// The name of the current ref, from the answers of the ref query and of the
/// fallback query (`None` where the fallback did not run).
pub fn head_name(primary: Option<String>, fallback: Option<String>) -> (r: Option<String>)
    ensures
        opt_view(r) == resolved_ref(opt_view(primary), opt_view(fallback)),
        opt_view(r) != Some(head_token()),
{
    if !needs_fallback(&primary) {
        primary
    } else if !needs_fallback(&fallback) {
        fallback
    } else {
        None
    }
}

} // verus!
