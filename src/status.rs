//! Classification of the machine-readable status listing of a working tree.

use vstd::prelude::*;
use crate::text::{decode_lossy, lossy_text};

verus! {

broadcast use vstd::string::group_string_axioms;

/// What the working tree holds, from most to least urgent.
#[derive(Clone, Copy, Debug, PartialEq, Eq, Structural)]
pub enum RepoState {
    Conflict,
    Untracked,
    Staged,
    Unstaged,
    Clean,
}

/// An unmerged pair: `UU`, `AA`, `DD`, `AU`, `UD`, `UA` or `DU`.
pub open spec fn is_unmerged_pair(a: char, b: char) -> bool {
    (a == 'U' && b == 'U') || (a == 'A' && b == 'A') || (a == 'D' && b == 'D') || (a == 'A' && b
        == 'U') || (a == 'U' && b == 'D') || (a == 'U' && b == 'A') || (a == 'D' && b == 'U')
}

/// One of `M`, `R`, `A`, `D`, `C`.
pub open spec fn is_change_mark(c: char) -> bool {
    c == 'M' || c == 'R' || c == 'A' || c == 'D' || c == 'C'
}

/// A change mark, or a space.
pub open spec fn is_worktree_mark(c: char) -> bool {
    is_change_mark(c) || c == ' '
}

/// Position `i` is the first character of a non-empty line of `s`.
pub open spec fn line_start(s: Seq<char>, i: int) -> bool {
    0 <= i < s.len() && (i == 0 || s[i - 1] == '\n')
}

/// The line at `i` begins with an unmerged pair.
pub open spec fn conflict_at(s: Seq<char>, i: int) -> bool {
    line_start(s, i) && i + 1 < s.len() && is_unmerged_pair(s[i], s[i + 1])
}

/// The line at `i` begins with `??`.
pub open spec fn untracked_at(s: Seq<char>, i: int) -> bool {
    line_start(s, i) && i + 1 < s.len() && s[i] == '?' && s[i + 1] == '?'
}

/// The first character of the line at `i` is a change mark.
pub open spec fn staged_at(s: Seq<char>, i: int) -> bool {
    line_start(s, i) && is_change_mark(s[i])
}

/// The second character of the line at `i` is a change mark or a space (a
/// carriage return or line feed ends the line, and neither is a mark).
pub open spec fn unstaged_at(s: Seq<char>, i: int) -> bool {
    line_start(s, i) && i + 1 < s.len() && s[i] != '\n' && is_worktree_mark(s[i + 1])
}

pub open spec fn has_conflict(s: Seq<char>) -> bool {
    exists|i: int| conflict_at(s, i)
}

pub open spec fn has_untracked(s: Seq<char>) -> bool {
    exists|i: int| untracked_at(s, i)
}

pub open spec fn has_staged(s: Seq<char>) -> bool {
    exists|i: int| staged_at(s, i)
}

pub open spec fn has_unstaged(s: Seq<char>) -> bool {
    exists|i: int| unstaged_at(s, i)
}

/// The state of a status listing: the first rule that any line meets wins.
pub open spec fn classify(s: Seq<char>) -> RepoState {
    if has_conflict(s) {
        RepoState::Conflict
    } else if has_untracked(s) {
        RepoState::Untracked
    } else if has_staged(s) {
        RepoState::Staged
    } else if has_unstaged(s) {
        RepoState::Unstaged
    } else {
        RepoState::Clean
    }
}

fn is_change_char(c: char) -> (r: bool)
    ensures
        r == is_change_mark(c),
{
    c == 'M' || c == 'R' || c == 'A' || c == 'D' || c == 'C'
}

fn is_unmerged_chars(a: char, b: char) -> (r: bool)
    ensures
        r == is_unmerged_pair(a, b),
{
    (a == 'U' && b == 'U') || (a == 'A' && b == 'A') || (a == 'D' && b == 'D') || (a == 'A' && b
        == 'U') || (a == 'U' && b == 'D') || (a == 'U' && b == 'A') || (a == 'D' && b == 'U')
}

proof fn lemma_extend(p: spec_fn(int) -> bool, i: int)
    requires
        0 <= i,
    ensures
        (exists|j: int| 0 <= j < i + 1 && #[trigger] p(j)) == ((exists|j: int|
            0 <= j < i && #[trigger] p(j)) || p(i)),
{
    if exists|j: int| 0 <= j < i + 1 && #[trigger] p(j) {
        let j = choose|j: int| 0 <= j < i + 1 && #[trigger] p(j);
        if j < i {
            assert(0 <= j < i && p(j));
        }
    }
    if p(i) {
        assert(0 <= i < i + 1 && p(i));
    }
    if exists|j: int| 0 <= j < i && #[trigger] p(j) {
        let j = choose|j: int| 0 <= j < i && #[trigger] p(j);
        assert(0 <= j < i + 1 && p(j));
    }
}

/// Classifies the text of a status listing, in one pass over its characters.
pub fn classify_text(text: &str) -> (r: RepoState)
    ensures
        r == classify(text@),
{
    let ghost s = text@;
    let ghost n = s.len();
    let mut conflict = false;
    let mut untracked = false;
    let mut staged = false;
    let mut unstaged = false;
    // Whether the current character starts a line, and whether the one
    // before it did.
    let mut at_start = true;
    let mut prev_start = false;
    let mut prev: char = '\n';
    for c in iter: text.chars()
        invariant
            iter.seq() == s,
            0 <= iter.index(),
            at_start == (iter.index() == 0 || s[iter.index() - 1] == '\n'),
            iter.index() > 0 ==> prev == s[iter.index() - 1],
            prev_start == (iter.index() > 0 && line_start(s, iter.index() - 1)),
            conflict == exists|j: int| 0 <= j && j + 1 < iter.index() && conflict_at(s, j),
            untracked == exists|j: int| 0 <= j && j + 1 < iter.index() && untracked_at(s, j),
            staged == exists|j: int| 0 <= j < iter.index() && staged_at(s, j),
            unstaged == exists|j: int| 0 <= j && j + 1 < iter.index() && unstaged_at(s, j),
    {
        let ghost k = iter.index();
        assert(c == s[k]);
        let c_here = prev_start && is_unmerged_chars(prev, c);
        let u_here = prev_start && prev == '?' && c == '?';
        let w_here = prev_start && prev != '\n' && (is_change_char(c) || c == ' ');
        let s_here = at_start && is_change_char(c);
        proof {
            if k > 0 {
                lemma_extend(|j: int| conflict_at(s, j), k - 1);
                lemma_extend(|j: int| untracked_at(s, j), k - 1);
                lemma_extend(|j: int| unstaged_at(s, j), k - 1);
                assert(conflict_at(s, k - 1) == c_here);
                assert(untracked_at(s, k - 1) == u_here);
                assert(unstaged_at(s, k - 1) == w_here);
            }
            lemma_extend(|j: int| staged_at(s, j), k);
            assert(staged_at(s, k) == s_here);
        }
        conflict = conflict || c_here;
        untracked = untracked || u_here;
        unstaged = unstaged || w_here;
        staged = staged || s_here;
        prev_start = at_start;
        at_start = c == '\n';
        prev = c;
    }
    assert(has_conflict(s) == exists|j: int| 0 <= j && j + 1 < n && conflict_at(s, j));
    assert(has_untracked(s) == exists|j: int| 0 <= j && j + 1 < n && untracked_at(s, j));
    assert(has_staged(s) == exists|j: int| 0 <= j < n && staged_at(s, j));
    assert(has_unstaged(s) == exists|j: int| 0 <= j && j + 1 < n && unstaged_at(s, j));
    if conflict {
        RepoState::Conflict
    } else if untracked {
        RepoState::Untracked
    } else if staged {
        RepoState::Staged
    } else if unstaged {
        RepoState::Unstaged
    } else {
        RepoState::Clean
    }
}

/// The state that the status query gives: that of its decoded output where
/// it succeeded, else `Clean`.
pub open spec fn status_state(ok: bool, out: Seq<u8>) -> RepoState {
    if ok {
        classify(lossy_text(out))
    } else {
        RepoState::Clean
    }
}

/// The state of a working tree from the status query: `ok` is whether the
/// query ran and exited successfully, `out` what it printed. A query that
/// failed gives `Clean`.
pub fn repo_state(ok: bool, out: &[u8]) -> (r: RepoState)
    ensures
        r == status_state(ok, out@),
{
    if !ok {
        return RepoState::Clean;
    }
    let text = decode_lossy(out);
    classify_text(text.as_str())
}

/// A line that begins with an unmerged pair makes the listing `Conflict`,
/// whatever the other lines hold.
pub proof fn lemma_conflict_first(s: Seq<char>, i: int)
    requires
        conflict_at(s, i),
    ensures
        classify(s) == RepoState::Conflict,
{
}

/// With no unmerged pair, a line that begins with `??` makes the listing
/// `Untracked`, whatever staged or unstaged changes other lines show.
pub proof fn lemma_untracked_before_changes(s: Seq<char>, i: int)
    requires
        !has_conflict(s),
        untracked_at(s, i),
    ensures
        classify(s) == RepoState::Untracked,
{
}

/// With no unmerged pair and no untracked line, a line whose first character
/// is a change mark makes the listing `Staged`, whatever the second
/// characters of the lines are.
pub proof fn lemma_staged_before_unstaged(s: Seq<char>, i: int)
    requires
        !has_conflict(s),
        !has_untracked(s),
        staged_at(s, i),
    ensures
        classify(s) == RepoState::Staged,
{
}

/// With no unmerged pair, no untracked line and no first-character change, a
/// line whose second character is a change mark or a space makes the listing
/// `Unstaged`.
pub proof fn lemma_unstaged(s: Seq<char>, i: int)
    requires
        !has_conflict(s),
        !has_untracked(s),
        !has_staged(s),
        unstaged_at(s, i),
    ensures
        classify(s) == RepoState::Unstaged,
{
}

/// An empty listing is `Clean`.
pub proof fn lemma_empty_is_clean()
    ensures
        classify(Seq::<char>::empty()) == RepoState::Clean,
{
}

} // verus!
