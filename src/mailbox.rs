use vstd::prelude::*;

verus! {

/// Where the pending command waits for the shell's key binding.
pub const HANDOFF_PATH: &'static str = "/tmp/aishell_suggestion";

/// A single-slot mailbox: it holds nothing or exactly one pending command. A `put`
/// replaces whatever was pending (the last writer wins); a `take` empties it.
pub struct Mailbox {
    pending: Option<String>,
}

/// The slot after a `put` of `command`.
pub open spec fn put_spec(slot: Option<Seq<char>>, command: Seq<char>) -> Option<Seq<char>> {
    Some(command)
}

/// What a `take` hands back, and the slot after it.
pub open spec fn take_spec(slot: Option<Seq<char>>) -> (Option<Seq<char>>, Option<Seq<char>>) {
    (slot, None)
}

impl View for Mailbox {
    type V = Option<Seq<char>>;

    closed spec fn view(&self) -> Option<Seq<char>> {
        match self.pending {
            Some(s) => Some(s@),
            None => None,
        }
    }
}

impl Mailbox {
    /// An empty mailbox.
    pub fn new() -> (r: Mailbox)
        ensures
            r@ is None,
    {
        Mailbox { pending: None }
    }

    /// Replaces the pending command, if any, by `command`.
    pub fn put(&mut self, command: String)
        ensures
            final(self)@ == put_spec(old(self)@, command@),
    {
        self.pending = Some(command);
    }

    /// Hands out the pending command, if any, and empties the slot.
    pub fn take(&mut self) -> (r: Option<String>)
        ensures
            (match r {
                Some(s) => Some(s@),
                None => None,
            }) == take_spec(old(self)@).0,
            final(self)@ == take_spec(old(self)@).1,
    {
        let r = self.pending.take();
        r
    }

    /// Whether a command is pending.
    pub fn is_pending(&self) -> (r: bool)
        ensures
            r == self@ is Some,
    {
        self.pending.is_some()
    }
}

/// `take` right after `put` hands back exactly the command put, and a second `take`
/// with no `put` between hands back nothing.
pub proof fn lemma_put_then_take(slot: Option<Seq<char>>, command: Seq<char>)
    ensures
        take_spec(put_spec(slot, command)).0 == Some(command),
        take_spec(take_spec(put_spec(slot, command)).1).0 is None,
{
}

/// Two `put`s with no `take` between leave the slot holding the second command.
pub proof fn lemma_last_put_wins(slot: Option<Seq<char>>, a: Seq<char>, b: Seq<char>)
    ensures
        put_spec(put_spec(slot, a), b) == Some(b),
{
}

/// The characters that a read of the handoff file trims away.
pub open spec fn is_blank(c: char) -> bool {
    c == ' ' || c == '\t' || c == '\n' || c == '\r'
}

pub open spec fn trim_end(s: Seq<char>) -> Seq<char>
    decreases s.len(),
{
    if s.len() > 0 && is_blank(s.last()) {
        trim_end(s.drop_last())
    } else {
        s
    }
}

pub open spec fn trim_start(s: Seq<char>) -> Seq<char>
    decreases s.len(),
{
    if s.len() > 0 && is_blank(s[0]) {
        trim_start(s.drop_first())
    } else {
        s
    }
}

/// The text with blanks trimmed at both ends.
pub open spec fn trimmed(s: Seq<char>) -> Seq<char> {
    trim_start(trim_end(s))
}

/// The contents of the handoff file for a pending command.
pub open spec fn payload_spec(command: Seq<char>) -> Seq<char> {
    command.push('\n')
}

/// The text written to the handoff file: the command and a line terminator.
pub fn encode_payload(command: &str) -> (r: String)
    ensures
        r@ == payload_spec(command@),
{
    let mut r = String::from_str(command);
    r.append("\n");
    proof {
        reveal_strlit("\n");
    }
    r
}

/// The command read back from the handoff file's contents: the text, trimmed.
pub fn decode_payload(text: &str) -> (r: String)
    ensures
        r@ == trimmed(text@),
{
    let n = text.unicode_len();
    let mut end: usize = n;
    assert(text@.subrange(0, n as int) =~= text@);
    while end > 0 && is_blank_char(text.get_char(end - 1))
        invariant
            n == text@.len(),
            end <= n,
            trim_end(text@) == trim_end(text@.subrange(0, end as int)),
        decreases end,
    {
        assert(text@.subrange(0, end as int).drop_last() =~= text@.subrange(0, end - 1));
        end = end - 1;
    }
    let ghost t = text@.subrange(0, end as int);
    assert(trim_end(text@) == t);
    let mut start: usize = 0;
    assert(t.subrange(0, end as int) =~= t);
    while start < end && is_blank_char(text.get_char(start))
        invariant
            n == text@.len(),
            start <= end <= n,
            t == text@.subrange(0, end as int),
            trim_start(t) == trim_start(t.subrange(start as int, end as int)),
        decreases end - start,
    {
        assert(t.subrange(start as int, end as int).drop_first() =~= t.subrange(
            start + 1,
            end as int,
        ));
        start = start + 1;
    }
    assert(t.subrange(start as int, end as int) =~= text@.subrange(start as int, end as int));
    String::from_str(text.substring_char(start, end))
}

fn is_blank_char(c: char) -> (r: bool)
    ensures
        r == is_blank(c),
{
    c == ' ' || c == '\t' || c == '\n' || c == '\r'
}

/// A command with no blank at either end reads back from its handoff file as itself.
pub proof fn lemma_payload_round_trip(command: Seq<char>)
    requires
        command.len() > 0 ==> !is_blank(command[0]) && !is_blank(command.last()),
    ensures
        trimmed(payload_spec(command)) == command,
{
    let p = payload_spec(command);
    assert(p.drop_last() =~= command);
    assert(p.last() == '\n');
    assert(trim_end(p) == trim_end(command));
    assert(trim_end(command) == command);
    assert(trim_start(command) == command);
}

} // verus!
