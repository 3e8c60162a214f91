use vstd::prelude::*;
use crate::outcome::{Invocation, OutcomeModel, SuggestionOutcome};
use crate::mailbox::{encode_payload, payload_spec};
use crate::terminal::{render_spec, render_update, LOADING};

verus! {

/// What the command line asks for.
pub enum Mode {
    /// No arguments: print the usage line.
    Usage,
    /// Append the hook and the key binding to the user's rc files.
    AddToShell,
    /// `init` without a dialect: print the usage of `init`.
    InitUsage,
    /// Print the hook source for the named dialect.
    Init(String),
    /// Fetch a suggestion for a failed command.
    Suggest(Invocation),
}

pub enum ModeModel {
    Usage,
    AddToShell,
    InitUsage,
    Init(Seq<char>),
    Suggest(Seq<char>, Seq<char>),
}

impl View for Mode {
    type V = ModeModel;

    open spec fn view(&self) -> ModeModel {
        match self {
            Mode::Usage => ModeModel::Usage,
            Mode::AddToShell => ModeModel::AddToShell,
            Mode::InitUsage => ModeModel::InitUsage,
            Mode::Init(s) => ModeModel::Init(s@),
            Mode::Suggest(inv) => ModeModel::Suggest(inv.failed_command@, inv.error_text@),
        }
    }
}

/// The words joined with one space between each two.
pub open spec fn join_spaced(words: Seq<Seq<char>>) -> Seq<char>
    decreases words.len(),
{
    if words.len() == 0 {
        Seq::empty()
    } else if words.len() == 1 {
        words[0]
    } else {
        join_spaced(words.drop_last()) + seq![' '] + words.last()
    }
}

pub open spec fn args_view(args: Seq<String>) -> Seq<Seq<char>> {
    args.map_values(|a: String| a@)
}

/// The mode that the arguments (the program's name left out) ask for.
pub open spec fn mode_of(args: Seq<Seq<char>>) -> ModeModel {
    if args.len() == 0 {
        ModeModel::Usage
    } else if args[0] == "add-to-shell"@ {
        ModeModel::AddToShell
    } else if args[0] == "init"@ {
        if args.len() < 2 {
            ModeModel::InitUsage
        } else {
            ModeModel::Init(args[1])
        }
    } else {
        ModeModel::Suggest(args[0], join_spaced(args.subrange(1, args.len() as int)))
    }
}

/// The words from `from` on, joined with single spaces.
pub fn join_from(words: &Vec<String>, from: usize) -> (r: String)
    requires
        from <= words@.len(),
    ensures
        r@ == join_spaced(args_view(words@).subrange(from as int, words@.len() as int)),
{
    let ghost all = args_view(words@);
    let mut r = String::new();
    let mut i: usize = from;
    assert(all.subrange(from as int, from as int) =~= Seq::<Seq<char>>::empty());
    while i < words.len()
        invariant
            from <= i <= words@.len(),
            all == args_view(words@),
            r@ == join_spaced(all.subrange(from as int, i as int)),
        decreases words@.len() - i,
    {
        let ghost before = all.subrange(from as int, i as int);
        let ghost after = all.subrange(from as int, i + 1);
        assert(after.drop_last() =~= before);
        if i > from {
            r.append(" ");
            proof {
                reveal_strlit(" ");
            }
        }
        r.append(words[i].as_str());
        proof {
            if i == from {
                assert(r@ =~= after[0]);
            } else {
                assert(r@ =~= join_spaced(before) + seq![' '] + after.last());
            }
        }
        i = i + 1;
    }
    r
}

fn same_text(a: &str, b: &str) -> (r: bool)
    ensures
        r == (a@ == b@),
{
    String::from_str(a) == String::from_str(b)
}

/// Reads the command line (the program's name left out).
pub fn parse_args(args: &Vec<String>) -> (r: Mode)
    ensures
        r@ == mode_of(args_view(args@)),
{
    if args.len() == 0 {
        return Mode::Usage;
    }
    if same_text(args[0].as_str(), "add-to-shell") {
        return Mode::AddToShell;
    }
    if same_text(args[0].as_str(), "init") {
        if args.len() < 2 {
            return Mode::InitUsage;
        }
        return Mode::Init(args[1].clone());
    }
    let error_text = join_from(args, 1);
    Mode::Suggest(Invocation { failed_command: args[0].clone(), error_text })
}

/// The text with each two-character escape `\n` turned into a line break.
pub open spec fn unescape_newlines(s: Seq<char>) -> Seq<char>
    decreases s.len(),
{
    if s.len() == 0 {
        s
    } else if s.len() >= 2 && s[0] == '\\' && s[1] == 'n' {
        seq!['\n'] + unescape_newlines(s.subrange(2, s.len() as int))
    } else {
        seq![s[0]] + unescape_newlines(s.drop_first())
    }
}

/// What the foreground prints at once: the error text, its escaped line breaks
/// turned into real ones, on a line of its own, then the placeholder.
pub open spec fn foreground_spec(error_text: Seq<char>) -> Seq<char> {
    unescape_newlines(error_text) + seq!['\n'] + LOADING@
}

/// Turns each escaped `\n` of the text into a line break.
pub fn unescape(text: &str) -> (r: String)
    ensures
        r@ == unescape_newlines(text@),
{
    let n = text.unicode_len();
    let mut r = String::new();
    let mut i: usize = 0;
    assert(text@.subrange(0, n as int) =~= text@);
    assert(r@ + unescape_newlines(text@) =~= unescape_newlines(text@));
    while i < n
        invariant
            n == text@.len(),
            i <= n,
            r@ + unescape_newlines(text@.subrange(i as int, n as int)) == unescape_newlines(text@),
        decreases n - i,
    {
        let ghost rest = text@.subrange(i as int, n as int);
        let c = text.get_char(i);
        if c == '\\' && i + 1 < n && text.get_char(i + 1) == 'n' {
            assert(rest.subrange(2, rest.len() as int) =~= text@.subrange(i + 2, n as int));
            r.append("\n");
            proof {
                reveal_strlit("\n");
                assert(r@ + unescape_newlines(text@.subrange(i + 2, n as int)) =~= unescape_newlines(text@));
            }
            i = i + 2;
        } else {
            assert(rest.drop_first() =~= text@.subrange(i + 1, n as int));
            let single = text.substring_char(i, i + 1);
            assert(single@ =~= seq![c]);
            r.append(single);
            proof {
                assert(r@ + unescape_newlines(text@.subrange(i + 1, n as int)) =~= unescape_newlines(text@));
            }
            i = i + 1;
        }
    }
    assert(text@.subrange(n as int, n as int).len() == 0);
    assert(r@ =~= r@ + unescape_newlines(text@.subrange(n as int, n as int)));
    r
}

/// What the foreground prints before it hands control back to the shell.
pub fn foreground_text(invocation: &Invocation) -> (r: String)
    ensures
        r@ == foreground_spec(invocation.error_text@),
{
    let mut r = unescape(invocation.error_text.as_str());
    r.append("\n");
    r.append(LOADING);
    proof {
        reveal_strlit("\n");
    }
    r
}

/// What the OS reported when the invocation tried to detach its background half.
pub enum DetachEvent {
    /// This is the foreground process; the background one was started.
    InParent,
    /// This is the background process; whether it left the terminal's session.
    InChild { session_created: bool },
    /// No background process could be started.
    ForkFailed,
}

/// What to do next.
#[derive(PartialEq, Eq, Structural)]
pub enum DetachAction {
    /// Return to the shell with no further effect.
    ReturnToShell,
    /// Fetch, render, store, then end the process.
    RunBackground,
    /// Report the failure on standard error and do no background work.
    Abort,
}

/// The decision after an attempt to detach: the background work runs only in a
/// child that left the terminal's session.
pub fn detach_step(event: &DetachEvent) -> (r: DetachAction)
    ensures
        r == match event {
            DetachEvent::InParent => DetachAction::ReturnToShell,
            DetachEvent::InChild { session_created } => if *session_created {
                DetachAction::RunBackground
            } else {
                DetachAction::Abort
            },
            DetachEvent::ForkFailed => DetachAction::Abort,
        },
{
    match event {
        DetachEvent::InParent => DetachAction::ReturnToShell,
        DetachEvent::InChild { session_created } => if *session_created {
            DetachAction::RunBackground
        } else {
            DetachAction::Abort
        },
        DetachEvent::ForkFailed => DetachAction::Abort,
    }
}

/// What the background half does with an outcome: the text that rewrites the
/// placeholder, and the handoff file's new content, written only on a suggestion.
pub struct BackgroundEffects {
    pub screen: String,
    pub handoff: Option<String>,
}

pub open spec fn handoff_spec(o: OutcomeModel) -> Option<Seq<char>> {
    match o {
        OutcomeModel::Suggestion { exact_command, .. } => Some(payload_spec(exact_command)),
        _ => None,
    }
}

/// The effects of the background half for an outcome.
pub fn background_effects(outcome: &SuggestionOutcome) -> (r: BackgroundEffects)
    ensures
        r.screen@ == render_spec(outcome@),
        match r.handoff {
            Some(p) => handoff_spec(outcome@) == Some(p@),
            None => handoff_spec(outcome@) is None,
        },
{
    let screen = render_update(outcome);
    let handoff = match outcome.staged_command() {
        Some(c) => Some(encode_payload(c.as_str())),
        None => None,
    };
    BackgroundEffects { screen, handoff }
}

} // verus!
