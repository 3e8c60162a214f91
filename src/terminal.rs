use vstd::prelude::*;
use crate::outcome::{OutcomeModel, SuggestionOutcome};

verus! {

/// Saves the cursor position.
pub const SAVE_CURSOR: &'static str = "\x1B[s";

/// Restores the cursor position saved last.
pub const RESTORE_CURSOR: &'static str = "\x1B[u";

/// Moves the cursor to the start of the line above.
pub const PREVIOUS_LINE: &'static str = "\x1B[F";

/// Clears the whole line under the cursor.
pub const CLEAR_LINE: &'static str = "\x1B[2K";

/// How many lines above the cursor the placeholder stands when it is rewritten.
pub const PLACEHOLDER_OFFSET: usize = 2;

/// The mark that starts every notification line.
pub const BADGE: &'static str = "\u{1F916} ";

/// The placeholder printed while the suggestion is fetched.
pub const LOADING: &'static str = "\u{1F916} loading...";

/// Shown after a staged command: the key binding that accepts it, in green.
pub const ACCEPT_HINT: &'static str = " \x1B[32m(Ctrl+T)\x1B[0m";

/// The line shown when there is nothing to stage.
pub const NO_SUGGESTION: &'static str = "\u{1F916} No suggestion available.\n";

pub open spec fn repeat(s: Seq<char>, n: nat) -> Seq<char>
    decreases n,
{
    if n == 0 {
        Seq::empty()
    } else {
        repeat(s, (n - 1) as nat) + s
    }
}

/// The sequence that moves the cursor up by `n` lines, to the start of that line.
pub fn move_up(n: usize) -> (r: String)
    ensures
        r@ == repeat(PREVIOUS_LINE@, n as nat),
{
    let mut r = String::new();
    let mut i: usize = 0;
    while i < n
        invariant
            i <= n,
            r@ == repeat(PREVIOUS_LINE@, i as nat),
        decreases n - i,
    {
        r.append(PREVIOUS_LINE);
        i = i + 1;
    }
    r
}

/// The final notification line for an outcome.
pub open spec fn outcome_line_spec(o: OutcomeModel) -> Seq<char> {
    match o {
        OutcomeModel::Suggestion { exact_command, .. } => BADGE@ + exact_command + ACCEPT_HINT@,
        _ => NO_SUGGESTION@,
    }
}

/// What rewrites the placeholder: save the cursor, go up to the placeholder's line,
/// clear it, write the final line, restore the cursor.
pub open spec fn render_spec(o: OutcomeModel) -> Seq<char> {
    SAVE_CURSOR@ + repeat(PREVIOUS_LINE@, PLACEHOLDER_OFFSET as nat) + CLEAR_LINE@
        + outcome_line_spec(o) + RESTORE_CURSOR@
}

/// The final notification line for an outcome: the staged command with the hint
/// of the key that accepts it, or a line saying that there is none.
pub fn outcome_line(outcome: &SuggestionOutcome) -> (r: String)
    ensures
        r@ == outcome_line_spec(outcome@),
{
    match outcome {
        SuggestionOutcome::Suggestion { exact_command, .. } => {
            let mut r = String::from_str(BADGE);
            r.append(exact_command.as_str());
            r.append(ACCEPT_HINT);
            r
        },
        _ => String::from_str(NO_SUGGESTION),
    }
}

/// The text that replaces the placeholder by the final line and puts the cursor
/// back where the shell had it.
pub fn render_update(outcome: &SuggestionOutcome) -> (r: String)
    ensures
        r@ == render_spec(outcome@),
{
    let mut r = String::from_str(SAVE_CURSOR);
    let up = move_up(PLACEHOLDER_OFFSET);
    r.append(up.as_str());
    r.append(CLEAR_LINE);
    let line = outcome_line(outcome);
    r.append(line.as_str());
    r.append(RESTORE_CURSOR);
    r
}

/// The placeholder printed in the foreground, before the fetch starts.
pub fn placeholder() -> (r: String)
    ensures
        r@ == LOADING@,
{
    String::from_str(LOADING)
}

/// On a suggestion, the rewritten line holds the staged command, right after the
/// badge.
pub proof fn lemma_render_shows_command(o: OutcomeModel)
    requires
        o is Suggestion,
    ensures
        ({
            let at: int = SAVE_CURSOR@.len() + repeat(PREVIOUS_LINE@, PLACEHOLDER_OFFSET as nat).len()
                + CLEAR_LINE@.len() + BADGE@.len() as int;
            render_spec(o).subrange(at, at + o->Suggestion_exact_command.len() as int)
                == o->Suggestion_exact_command
        }),
{
    let c = o->Suggestion_exact_command;
    let pre = SAVE_CURSOR@ + repeat(PREVIOUS_LINE@, PLACEHOLDER_OFFSET as nat) + CLEAR_LINE@
        + BADGE@;
    assert(render_spec(o) =~= pre + c + (ACCEPT_HINT@ + RESTORE_CURSOR@));
    assert((pre + c + (ACCEPT_HINT@ + RESTORE_CURSOR@)).subrange(
        pre.len() as int,
        pre.len() + c.len() as int,
    ) =~= c);
}

} // verus!
