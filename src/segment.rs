//! Composing the styled text of the segments.

use vstd::prelude::*;
use crate::repo::{file_name_of, head_token, is_detached, opt_view, repo_root_name, resolved_ref};
use crate::status::{repo_state, status_state, RepoState};

verus! {

/// The colour that shows a state.
pub open spec fn color_of(state: RepoState) -> Seq<char> {
    match state {
        RepoState::Conflict => seq!['#', 'f', 'f', '6', 'b', '6', 'b'],
        RepoState::Unstaged => seq!['#', 'f', 'f', '6', 'b', '6', 'b'],
        RepoState::Staged => seq!['#', 'f', '1', 'f', 'a', '8', 'c'],
        RepoState::Untracked => seq!['#', 'b', 'd', '9', '3', 'f', '9'],
        RepoState::Clean => seq!['#', '5', '0', 'f', 'a', '7', 'b'],
    }
}

/// The escape that switches the foreground to `color`.
pub open spec fn fg_escape(color: Seq<char>) -> Seq<char> {
    seq!['#', '[', 'f', 'g', '='] + color + seq![']']
}

/// The badge of a repository: the icon in the state's colour, then the
/// project and branch in the label colour.
pub open spec fn badge_line(
    project: Seq<char>,
    branch: Seq<char>,
    state: RepoState,
    label_fg: Seq<char>,
    icon: Seq<char>,
) -> Seq<char> {
    fg_escape(color_of(state)) + icon + fg_escape(label_fg) + project + seq!['('] + branch + seq![
        ')',
    ]
}

/// The git segment: nothing outside a working tree or where the project or
/// the ref has no name.
pub open spec fn badge_text(
    inside: bool,
    toplevel: Option<Seq<char>>,
    branch: Option<Seq<char>>,
    status_ok: bool,
    status: Seq<u8>,
    label_fg: Seq<char>,
    icon: Seq<char>,
) -> Seq<char> {
    let project = match toplevel {
        Some(t) => file_name_of(t),
        None => None,
    };
    if inside && project is Some && branch is Some {
        badge_line(project->0, branch->0, status_state(status_ok, status), label_fg, icon)
    } else {
        Seq::empty()
    }
}

/// The colour token for a state.
pub fn state_color_fg(state: RepoState) -> (r: &'static str)
    ensures
        r@ == color_of(state),
{
    match state {
        RepoState::Conflict | RepoState::Unstaged => {
            proof {
                reveal_strlit("#ff6b6b");
            }
            "#ff6b6b"
        },
        RepoState::Staged => {
            proof {
                reveal_strlit("#f1fa8c");
            }
            "#f1fa8c"
        },
        RepoState::Untracked => {
            proof {
                reveal_strlit("#bd93f9");
            }
            "#bd93f9"
        },
        RepoState::Clean => {
            proof {
                reveal_strlit("#50fa7b");
            }
            "#50fa7b"
        },
    }
}

/// The escape that switches the foreground colour to `color`, which is taken
/// as it is.
pub fn tmux_fg(color: &str) -> (r: String)
    ensures
        r@ == fg_escape(color@),
{
    proof {
        reveal_strlit("#[fg=");
        reveal_strlit("]");
    }
    let mut s = "#[fg=".to_owned();
    s.append(color);
    s.append("]");
    s
}

/// The badge line of a repository.
pub fn git_line(project: &str, branch: &str, state: RepoState, label_fg: &str, icon: &str) -> (r:
    String)
    ensures
        r@ == badge_line(project@, branch@, state, label_fg@, icon@),
{
    proof {
        reveal_strlit("(");
        reveal_strlit(")");
    }
    let mut s = tmux_fg(state_color_fg(state));
    s.append(icon);
    let restore = tmux_fg(label_fg);
    s.append(restore.as_str());
    s.append(project);
    s.append("(");
    s.append(branch);
    s.append(")");
    assert(s@ =~= badge_line(project@, branch@, state, label_fg@, icon@));
    s
}

/// The git segment from the answers of the queries: whether the path lies in
/// a working tree, the path of the top-level directory, the current ref (as
/// `head_name` resolves it), and whether the status query succeeded and what
/// it printed.
pub fn git_badge(
    inside: bool,
    toplevel: Option<String>,
    branch: Option<String>,
    status_ok: bool,
    status: &[u8],
    label_fg: &str,
    icon: &str,
) -> (r: String)
    ensures
        r@ == badge_text(
            inside,
            opt_view(toplevel),
            opt_view(branch),
            status_ok,
            status@,
            label_fg@,
            icon@,
        ),
{
    if !inside {
        return String::new();
    }
    let project = match toplevel {
        Some(t) => repo_root_name(t.as_str()),
        None => None,
    };
    match (project, branch) {
        (Some(p), Some(b)) => {
            let state = repo_state(status_ok, status);
            git_line(p.as_str(), b.as_str(), state, label_fg, icon)
        },
        _ => String::new(),
    }
}

/// The time segment: the icon, where there is one, before the formatted time.
pub open spec fn clock_line(icon: Seq<char>, stamp: Seq<char>) -> Seq<char> {
    icon + stamp
}

/// The time segment from an icon and the formatted time; an empty icon adds
/// nothing.
pub fn time_line(icon: &str, stamp: &str) -> (r: String)
    ensures
        r@ == clock_line(icon@, stamp@),
        icon@.len() == 0 ==> r@ == stamp@,
{
    if icon.unicode_len() == 0 {
        assert(icon@ + stamp@ =~= stamp@);
        return stamp.to_owned();
    }
    let mut s = icon.to_owned();
    s.append(stamp);
    s
}

/// Outside a working tree the git segment is empty, whatever the other
/// queries answered.
pub proof fn lemma_outside_tree_is_silent(
    toplevel: Option<Seq<char>>,
    branch: Option<Seq<char>>,
    status_ok: bool,
    status: Seq<u8>,
    label_fg: Seq<char>,
    icon: Seq<char>,
)
    ensures
        badge_text(false, toplevel, branch, status_ok, status, label_fg, icon) == Seq::<
            char,
        >::empty(),
{
}

/// The git segment depends on the answers of the queries alone: an unchanged
/// repository, which answers alike, gives the same text each time.
pub proof fn lemma_badge_repeatable(
    inside: bool,
    toplevel: Option<Seq<char>>,
    primary: Option<Seq<char>>,
    fallback: Option<Seq<char>>,
    status_ok: bool,
    status: Seq<u8>,
    label_fg: Seq<char>,
    icon: Seq<char>,
    inside2: bool,
    toplevel2: Option<Seq<char>>,
    primary2: Option<Seq<char>>,
    fallback2: Option<Seq<char>>,
    status_ok2: bool,
    status2: Seq<u8>,
)
    requires
        inside2 == inside,
        toplevel2 == toplevel,
        primary2 == primary,
        fallback2 == fallback,
        status_ok2 == status_ok,
        status2 == status,
    ensures
        badge_text(
            inside2,
            toplevel2,
            resolved_ref(primary2, fallback2),
            status_ok2,
            status2,
            label_fg,
            icon,
        ) == badge_text(
            inside,
            toplevel,
            resolved_ref(primary, fallback),
            status_ok,
            status,
            label_fg,
            icon,
        ),
{
}

/// A ref query that answers `HEAD` calls for the fallback query, whose
/// answer then names the ref; where the fallback gives nothing usable the
/// segment is empty, and `HEAD` is never shown as the ref.
pub proof fn lemma_detached_head(
    inside: bool,
    toplevel: Option<Seq<char>>,
    primary: Option<Seq<char>>,
    fallback: Option<Seq<char>>,
    status_ok: bool,
    status: Seq<u8>,
    label_fg: Seq<char>,
    icon: Seq<char>,
)
    ensures
        is_detached(Some(head_token())),
        resolved_ref(Some(head_token()), fallback) == (if is_detached(fallback) {
            None
        } else {
            fallback
        }),
        is_detached(fallback) ==> badge_text(
            inside,
            toplevel,
            resolved_ref(Some(head_token()), fallback),
            status_ok,
            status,
            label_fg,
            icon,
        ) == Seq::<char>::empty(),
        resolved_ref(primary, fallback) != Some(head_token()),
{
}

} // verus!
