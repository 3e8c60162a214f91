use aishell::controller::{
    detach_step, foreground_text, join_from, parse_args, unescape, DetachAction, DetachEvent, Mode,
};
use aishell::outcome::Invocation;
use aishell::shell::{contains_text, init_shell, rc_addition, rc_paths, FISH_HOOK, INIT_MARKER, TRAP_HOOK};

fn args(words: &[&str]) -> Vec<String> {
    words.iter().map(|w| w.to_string()).collect()
}

#[test]
fn bash_and_zsh_share_hook() {
    assert_eq!(init_shell("bash"), init_shell("zsh"));
    assert_eq!(init_shell("bash"), Some(TRAP_HOOK.to_string()));
    assert_eq!(TRAP_HOOK, "trap 'aishell \"$BASH_COMMAND\" \"$?\"' ERR\n");
}

#[test]
fn fish_has_event_hook() {
    let h = init_shell("fish").expect("fish is supported");
    assert_eq!(h, FISH_HOOK);
    assert!(h.contains("--on-event fish_postexec"));
    assert_ne!(Some(h), init_shell("bash"));
}

#[test]
fn powershell_not_supported() {
    assert_eq!(init_shell("powershell"), None);
    assert_eq!(init_shell(""), None);
}

#[test]
fn rc_addition_once() {
    let first = rc_addition("export PATH=$PATH:/bin\n").expect("an addition");
    assert!(first.starts_with("eval \"$(aishell init bash)\"\n"));
    assert!(first.contains("aishell_suggestion()"));
    let after = format!("export PATH=$PATH:/bin\n{}", first);
    assert_eq!(rc_addition(&after), None);
    assert_eq!(after.matches(INIT_MARKER).count(), 1);
}

#[test]
fn rc_addition_for_empty_file() {
    assert!(rc_addition("").is_some());
}

#[test]
fn rc_paths_under_home() {
    assert_eq!(rc_paths("/home/u"), vec!["/home/u/.bashrc".to_string(), "/home/u/.zshrc".to_string()]);
}

#[test]
fn contains_text_cases() {
    assert!(contains_text("abc", ""));
    assert!(contains_text("abc", "bc"));
    assert!(!contains_text("abc", "cb"));
    assert!(!contains_text("ab", "abc"));
}

#[test]
fn parse_no_args_is_usage() {
    assert!(matches!(parse_args(&vec![]), Mode::Usage));
}

#[test]
fn parse_add_to_shell() {
    assert!(matches!(parse_args(&args(&["add-to-shell"])), Mode::AddToShell));
}

#[test]
fn parse_init() {
    assert!(matches!(parse_args(&args(&["init"])), Mode::InitUsage));
    match parse_args(&args(&["init", "fish"])) {
        Mode::Init(d) => assert_eq!(d, "fish"),
        _ => panic!("expected init"),
    }
}

#[test]
fn parse_failed_command_joins_error_words() {
    match parse_args(&args(&["gerp foo", "command", "not", "found"])) {
        Mode::Suggest(inv) => {
            assert_eq!(inv.failed_command, "gerp foo");
            assert_eq!(inv.error_text, "command not found");
        }
        _ => panic!("expected a suggestion request"),
    }
    match parse_args(&args(&["ls"])) {
        Mode::Suggest(inv) => assert_eq!(inv.error_text, ""),
        _ => panic!("expected a suggestion request"),
    }
}

#[test]
fn join_from_middle() {
    assert_eq!(join_from(&args(&["a", "b", "c"]), 1), "b c");
    assert_eq!(join_from(&args(&["a"]), 1), "");
}

#[test]
fn unescape_newline_escapes() {
    assert_eq!(unescape("a\\nb"), "a\nb");
    assert_eq!(unescape("\\\\n"), "\\\n");
    assert_eq!(unescape("end\\"), "end\\");
    assert_eq!(unescape(""), "");
}

#[test]
fn foreground_prints_error_then_placeholder() {
    let inv = Invocation { failed_command: "gerp".to_string(), error_text: "127\\nx".to_string() };
    assert_eq!(foreground_text(&inv), "127\nx\n\u{1F916} loading...");
}

#[test]
fn detach_decisions() {
    assert!(detach_step(&DetachEvent::InParent) == DetachAction::ReturnToShell);
    assert!(detach_step(&DetachEvent::InChild { session_created: true }) == DetachAction::RunBackground);
    assert!(detach_step(&DetachEvent::InChild { session_created: false }) == DetachAction::Abort);
    assert!(detach_step(&DetachEvent::ForkFailed) == DetachAction::Abort);
}
