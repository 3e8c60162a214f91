use vstd::prelude::*;

verus! {

/// The hook for shells with an `ERR` trap (bash, zsh).
pub const TRAP_HOOK: &'static str = "trap 'aishell \"$BASH_COMMAND\" \"$?\"' ERR\n";

/// The hook for fish, on its post-exec event.
pub const FISH_HOOK: &'static str = "function fish_postexec --on-event fish_postexec; if test $status -ne 0; aishell \"$argv\"; end; end\n";

/// The text by which an rc file is known to load the hook already.
pub const INIT_MARKER: &'static str = "eval \"$(aishell init";

/// The line added to an rc file to load the hook.
pub const INIT_LINE: &'static str = "eval \"$(aishell init bash)\"\n";

/// The key binding added to an rc file: Ctrl+T puts the pending command on the
/// edit line and empties the handoff file.
pub const BINDING_FUNCTION: &'static str = "
aishell_suggestion() {
  local suggestion_file=\"/tmp/aishell_suggestion\"
  if [ -f \"$suggestion_file\" ]; then
    fix=$(< \"$suggestion_file\")
    rm -f \"$suggestion_file\"
    READLINE_LINE=\"$fix\"
    READLINE_POINT=${#fix}
  else
    echo \"No suggestion available.\"
  fi
}
bind -x '\\\"\\\\C-t\\\":aishell_suggestion'

";

/// The hook text for a shell dialect; `None` for one that is not supported.
pub open spec fn init_spec(shell: Seq<char>) -> Option<Seq<char>> {
    if shell == "bash"@ || shell == "zsh"@ {
        Some(TRAP_HOOK@)
    } else if shell == "fish"@ {
        Some(FISH_HOOK@)
    } else {
        None
    }
}

fn same_text(a: &str, b: &str) -> (r: bool)
    ensures
        r == (a@ == b@),
{
    String::from_str(a) == String::from_str(b)
}

/// The hook source that a shell of the named dialect evaluates at start-up.
pub fn init_shell(shell: &str) -> (r: Option<String>)
    ensures
        match r {
            Some(s) => init_spec(shell@) == Some(s@),
            None => init_spec(shell@) is None,
        },
{
    if same_text(shell, "bash") || same_text(shell, "zsh") {
        Some(String::from_str(TRAP_HOOK))
    } else if same_text(shell, "fish") {
        Some(String::from_str(FISH_HOOK))
    } else {
        None
    }
}

/// bash and zsh get the same hook; fish gets its own event hook; another dialect
/// gets none.
pub proof fn lemma_init_dialects()
    ensures
        init_spec("bash"@) == init_spec("zsh"@),
        init_spec("bash"@) == Some(TRAP_HOOK@),
        init_spec("fish"@) == Some(FISH_HOOK@),
        FISH_HOOK@ != TRAP_HOOK@,
        init_spec("powershell"@) is None,
{
    reveal_strlit("bash");
    reveal_strlit("zsh");
    reveal_strlit("fish");
    reveal_strlit("powershell");
    reveal_strlit("trap 'aishell \"$BASH_COMMAND\" \"$?\"' ERR\n");
    reveal_strlit(
        "function fish_postexec --on-event fish_postexec; if test $status -ne 0; aishell \"$argv\"; end; end\n",
    );
    assert(TRAP_HOOK@[0] != FISH_HOOK@[0]);
    assert("fish"@[0] != "bash"@[0] && "fish"@[0] != "zsh"@[0]);
    assert("powershell"@.len() != "bash"@.len() && "powershell"@.len() != "zsh"@.len());
    assert("powershell"@.len() != "fish"@.len());
}

/// Whether `pat` occurs in `text`.
pub open spec fn occurs_in(text: Seq<char>, pat: Seq<char>) -> bool {
    exists|i: int| 0 <= i && i + pat.len() <= text.len() && #[trigger] text.subrange(i, i + pat.len()) == pat
}

/// Whether `pat` occurs in `text`.
pub fn contains_text(text: &str, pat: &str) -> (r: bool)
    ensures
        r == occurs_in(text@, pat@),
{
    let n = text.unicode_len();
    let m = pat.unicode_len();
    if m > n {
        return false;
    }
    if m == 0 {
        assert(text@.subrange(0int, 0int + pat@.len()) =~= pat@);
        return true;
    }
    let target = String::from_str(pat);
    let mut i: usize = 0;
    while i <= n - m
        invariant
            n == text@.len(),
            m == pat@.len(),
            0 < m <= n,
            target@ == pat@,
            i <= n - m + 1,
            forall|j: int| 0 <= j < i ==> #[trigger] text@.subrange(j, j + m) != pat@,
        decreases n - m + 1 - i,
    {
        let window = String::from_str(text.substring_char(i, i + m));
        if window == target {
            return true;
        }
        i = i + 1;
    }
    false
}

/// The block that loads the hook and binds the key.
pub open spec fn rc_block() -> Seq<char> {
    INIT_LINE@ + BINDING_FUNCTION@
}

/// What to append to an rc file: nothing where it loads the hook already.
pub open spec fn rc_addition_spec(content: Seq<char>) -> Option<Seq<char>> {
    if occurs_in(content, INIT_MARKER@) {
        None
    } else {
        Some(rc_block())
    }
}

/// The rc file after it was brought to load the hook.
pub open spec fn rc_after(content: Seq<char>) -> Seq<char> {
    match rc_addition_spec(content) {
        Some(b) => content + b,
        None => content,
    }
}

/// The text to append to an rc file with the given content, or `None` where the
/// file already loads the hook.
pub fn rc_addition(content: &str) -> (r: Option<String>)
    ensures
        match r {
            Some(s) => rc_addition_spec(content@) == Some(s@),
            None => rc_addition_spec(content@) is None,
        },
{
    if contains_text(content, INIT_MARKER) {
        None
    } else {
        let mut block = String::from_str(INIT_LINE);
        block.append(BINDING_FUNCTION);
        Some(block)
    }
}

/// The rc files that are brought to load the hook, under the home directory.
pub fn rc_paths(home: &str) -> (r: Vec<String>)
    ensures
        r@.len() == 2,
        r@[0]@ == home@ + "/.bashrc"@,
        r@[1]@ == home@ + "/.zshrc"@,
{
    let mut bash = String::from_str(home);
    bash.append("/.bashrc");
    let mut zsh = String::from_str(home);
    zsh.append("/.zshrc");
    let mut r: Vec<String> = Vec::new();
    r.push(bash);
    r.push(zsh);
    r
}

/// Bringing an rc file to load the hook leaves the marker in it, and doing it a
/// second time changes nothing: the block is appended at most once.
pub proof fn lemma_rc_idempotent(content: Seq<char>)
    ensures
        occurs_in(rc_after(content), INIT_MARKER@),
        rc_after(rc_after(content)) == rc_after(content),
        !occurs_in(content, INIT_MARKER@) ==> rc_after(content) == content + rc_block(),
{
    reveal_strlit("eval \"$(aishell init");
    reveal_strlit("eval \"$(aishell init bash)\"\n");
    let m = INIT_MARKER@;
    if !occurs_in(content, m) {
        let after = content + rc_block();
        let i = content.len() as int;
        assert(after.subrange(i, i + m.len()) =~= m);
        assert(occurs_in(after, m));
    }
}

} // verus!
