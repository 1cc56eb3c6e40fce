use tmuxstar::clock::{time_segment, ClockReading};
use tmuxstar::repo::{head_name, needs_fallback, query_result, repo_root_name};
use tmuxstar::segment::{git_badge, git_line, state_color_fg, time_line, tmux_fg};
use tmuxstar::status::{classify_text, repo_state, RepoState};

fn s(x: &str) -> Option<String> {
    Some(x.to_string())
}

#[test]
fn every_unmerged_pair_is_conflict() {
    for code in ["UU", "AA", "DD", "AU", "UD", "UA", "DU"] {
        let out = format!("{} file.txt\n", code);
        assert_eq!(repo_state(true, out.as_bytes()), RepoState::Conflict, "{}", code);
    }
}

#[test]
fn conflict_wins_over_other_lines() {
    let out = b"?? new.txt\nM  staged.txt\n M changed.txt\nDU gone.txt\n";
    assert_eq!(repo_state(true, out), RepoState::Conflict);
}

#[test]
fn untracked_wins_over_changes() {
    let out = b"M  staged.txt\n M changed.txt\n?? new.txt\n";
    assert_eq!(repo_state(true, out), RepoState::Untracked);
}

#[test]
fn staged_wins_over_unstaged() {
    let out = b" M changed.txt\nA  added.txt\n";
    assert_eq!(repo_state(true, out), RepoState::Staged);
    for c in ["M", "R", "A", "D", "C"] {
        let line = format!("{}  f\n", c);
        assert_eq!(repo_state(true, line.as_bytes()), RepoState::Staged, "{}", c);
    }
}

#[test]
fn second_character_change_is_unstaged() {
    for c in ["M", "R", "A", "D", "C"] {
        let line = format!(" {} f\n", c);
        assert_eq!(repo_state(true, line.as_bytes()), RepoState::Unstaged, "{}", c);
    }
}

#[test]
fn space_as_second_character_counts_as_unstaged() {
    // A plain space in the second column is taken as a change.
    assert_eq!(repo_state(true, b"X  odd.txt\n"), RepoState::Unstaged);
}

#[test]
fn empty_listing_is_clean() {
    assert_eq!(repo_state(true, b""), RepoState::Clean);
    assert_eq!(repo_state(true, b"\n\n"), RepoState::Clean);
}

#[test]
fn markers_inside_a_line_do_not_count() {
    assert_eq!(repo_state(true, b"xx UU ?? M\n"), RepoState::Clean);
    assert_eq!(repo_state(true, b"U"), RepoState::Clean);
}

#[test]
fn crlf_lines_classify_like_lf_lines() {
    assert_eq!(repo_state(true, b" M a\r\nUU b\r\n"), RepoState::Conflict);
    assert_eq!(repo_state(true, b"\r\n"), RepoState::Clean);
}

#[test]
fn invalid_utf8_does_not_hide_markers() {
    assert_eq!(repo_state(true, b"\xff\xfe junk\n?? new\n"), RepoState::Untracked);
}

#[test]
fn query_result_needs_success_and_text() {
    assert_eq!(query_result(false, b"main\n"), None);
    assert_eq!(query_result(true, b""), None);
    assert_eq!(query_result(true, b" \n\t\n"), None);
    assert_eq!(query_result(true, b"  main \n"), s("main"));
}

#[test]
fn query_result_decodes_lossily() {
    assert_eq!(query_result(true, b"\xffab\n"), s("\u{FFFD}ab"));
}

#[test]
fn root_name_is_last_component() {
    assert_eq!(repo_root_name("/home/user/myproj"), s("myproj"));
    assert_eq!(repo_root_name("/home/user/myproj//"), s("myproj"));
    assert_eq!(repo_root_name("myproj"), s("myproj"));
    assert_eq!(repo_root_name("/srv/.hidden"), s(".hidden"));
    assert_eq!(repo_root_name("/home/user/myproj/."), s("myproj"));
}

#[test]
fn root_name_absent_without_final_component() {
    assert_eq!(repo_root_name(""), None);
    assert_eq!(repo_root_name("/"), None);
    assert_eq!(repo_root_name("///"), None);
    assert_eq!(repo_root_name("/a/.."), None);
    assert_eq!(repo_root_name("/."), None);
}

#[test]
fn fallback_runs_only_when_detached() {
    assert!(needs_fallback(&s("HEAD")));
    assert!(needs_fallback(&s("")));
    assert!(needs_fallback(&None));
    assert!(!needs_fallback(&s("main")));
    assert!(!needs_fallback(&s("HEADS")));
    assert!(!needs_fallback(&s("head")));
}

#[test]
fn head_name_prefers_branch() {
    assert_eq!(head_name(s("main"), None), s("main"));
    assert_eq!(head_name(s("main"), s("tags/v1")), s("main"));
}

#[test]
fn detached_head_uses_fallback() {
    assert_eq!(head_name(s("HEAD"), s("tags/v1.2~3")), s("tags/v1.2~3"));
    assert_eq!(head_name(None, s("remotes/origin/dev")), s("remotes/origin/dev"));
}

#[test]
fn detached_head_without_fallback_is_absent() {
    assert_eq!(head_name(s("HEAD"), None), None);
    assert_eq!(head_name(s("HEAD"), s("")), None);
    assert_eq!(head_name(None, None), None);
    assert_eq!(head_name(s("HEAD"), s("HEAD")), None);
}

#[test]
fn colors_follow_state() {
    assert_eq!(state_color_fg(RepoState::Conflict), "#ff6b6b");
    assert_eq!(state_color_fg(RepoState::Unstaged), "#ff6b6b");
    assert_eq!(state_color_fg(RepoState::Staged), "#f1fa8c");
    assert_eq!(state_color_fg(RepoState::Untracked), "#bd93f9");
    assert_eq!(state_color_fg(RepoState::Clean), "#50fa7b");
}

#[test]
fn fg_escape_embeds_color_verbatim() {
    assert_eq!(tmux_fg("white"), "#[fg=white]");
    assert_eq!(tmux_fg(""), "#[fg=]");
    assert_eq!(tmux_fg("colour 42"), "#[fg=colour 42]");
}

#[test]
fn git_line_layout() {
    assert_eq!(
        git_line("proj", "dev", RepoState::Staged, "grey", "+"),
        "#[fg=#f1fa8c]+#[fg=grey]proj(dev)"
    );
}

#[test]
fn clean_repository_badge() {
    let out = git_badge(true, s("/home/user/myproj"), s("main"), true, b"", "white", "*");
    assert_eq!(out, "#[fg=#50fa7b]*#[fg=white]myproj(main)");
}

#[test]
fn badge_color_follows_status() {
    let out = git_badge(true, s("/r/app"), s("feat"), true, b" M src/x.rs\n", "white", " ");
    assert_eq!(out, "#[fg=#ff6b6b] #[fg=white]app(feat)");
}

#[test]
fn outside_working_tree_is_empty() {
    let out = git_badge(false, s("/r/app"), s("main"), true, b"?? x\n", "white", "*");
    assert_eq!(out, "");
}

#[test]
fn missing_project_or_ref_is_empty() {
    assert_eq!(git_badge(true, None, s("main"), true, b"", "white", "*"), "");
    assert_eq!(git_badge(true, s("/"), s("main"), true, b"", "white", "*"), "");
    assert_eq!(git_badge(true, s("/r/app"), None, true, b"", "white", "*"), "");
}

#[test]
fn detached_badge_never_shows_head() {
    assert_eq!(git_badge(true, s("/r/app"), head_name(s("HEAD"), None), true, b"", "white", "*"), "");
    assert_eq!(
        git_badge(true, s("/r/app"), head_name(s("HEAD"), s("tags/v2")), true, b"", "white", "*"),
        "#[fg=#50fa7b]*#[fg=white]app(tags/v2)"
    );
}

#[test]
fn badge_is_repeatable() {
    let a = git_badge(true, s("/r/app"), s("main"), true, b"A  x\n", "white", "*");
    let b = git_badge(true, s("/r/app"), s("main"), true, b"A  x\n", "white", "*");
    assert_eq!(a, b);
}

#[test]
fn time_line_icon_prefix() {
    assert_eq!(time_line("", "2024-05-06"), "2024-05-06");
    assert_eq!(time_line("T ", "09:30"), "T 09:30");
}

#[test]
fn time_segment_date_without_icon() {
    let at = ClockReading { secs: 0, nanos: 0, offset_secs: 0 };
    assert_eq!(time_segment(&at, "%Y-%m-%d", ""), s("1970-01-01"));
}

#[test]
fn time_segment_uses_offset_and_icon() {
    let at = ClockReading { secs: 1_700_000_000, nanos: 0, offset_secs: 3600 };
    assert_eq!(time_segment(&at, "%Y-%m-%d %I:%M%p", "@ "), s("@ 2023-11-14 11:13PM"));
}

#[test]
fn time_segment_current_date() {
    let now = chrono::Local::now();
    let at = ClockReading {
        secs: now.timestamp(),
        nanos: now.timestamp_subsec_nanos(),
        offset_secs: now.offset().local_minus_utc(),
    };
    let expected = now.format("%Y-%m-%d").to_string();
    let out = time_segment(&at, "%Y-%m-%d", "").unwrap();
    assert_eq!(out, expected);
    assert_eq!(out.len(), 10);
}

#[test]
fn time_segment_unreadable_pattern() {
    let at = ClockReading { secs: 0, nanos: 0, offset_secs: 0 };
    assert_eq!(time_segment(&at, "%Q", ""), None);
}

#[test]
fn time_segment_reading_out_of_range() {
    let at = ClockReading { secs: 0, nanos: 0, offset_secs: 90_000 };
    assert_eq!(time_segment(&at, "%Y", ""), None);
}

#[test]
fn second_character_after_multibyte_first() {
    assert_eq!(repo_state(true, "\u{e9}M f\n".as_bytes()), RepoState::Unstaged);
    assert_eq!(classify_text("\u{e9}M f\n"), RepoState::Unstaged);
    assert_eq!(repo_state(true, b"\xffM f\n"), RepoState::Unstaged);
}

#[test]
fn failed_status_query_is_clean() {
    assert_eq!(repo_state(false, b"UU a\n?? b\n"), RepoState::Clean);
    assert_eq!(repo_state(false, b""), RepoState::Clean);
}

#[test]
fn classify_text_precedence() {
    assert_eq!(classify_text("?? a\nUA b\n"), RepoState::Conflict);
    assert_eq!(classify_text(" D a\nC  b\n"), RepoState::Staged);
    assert_eq!(classify_text(""), RepoState::Clean);
}

#[test]
fn query_result_trims_unicode_white_space() {
    assert_eq!(query_result(true, "\u{3000}main\u{a0}\r\n".as_bytes()), s("main"));
}

#[test]
fn failed_status_in_badge_is_clean_color() {
    let out = git_badge(true, s("/r/app"), s("main"), false, b"UU x\n", "white", "*");
    assert_eq!(out, "#[fg=#50fa7b]*#[fg=white]app(main)");
}
