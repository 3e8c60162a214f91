use vstd::prelude::*;
use crate::outcome::{opt_view, OutcomeModel, ProviderReply, ReplyMessage, SuggestionOutcome};

verus! {

/// The field of the structured reply that holds the command to stage.
pub const SUGGESTED_KEY: &'static str = "suggested_exact_command";

/// The field of the structured reply that explains the command.
pub const EXPLANATION_KEY: &'static str = "command_explanation";

/// Detail of the error given for a reply with neither refusal nor content.
pub const UNEXPECTED_SHAPE: &'static str = "Unexpected API response format";

/// Detail of the error given for content that does not fit the schema.
pub const SCHEMA_MISMATCH: &'static str = "Response content does not match the schema";

/// The structured-output schema sent with each request: an object with the two
/// required string fields and no others.
pub const RESPONSE_SCHEMA: &'static str = "{\"type\":\"object\",\"properties\":{\"suggested_exact_command\":{\"type\":\"string\",\"description\":\"ONLY the exact command that a user could be looking to type, no explanations here.\"},\"command_explanation\":{\"type\":\"string\"}},\"required\":[\"suggested_exact_command\",\"command_explanation\"],\"additionalProperties\":false}";

/// The JSON text of the structured-output schema.
pub fn response_schema() -> (r: String)
    ensures
        r@ == RESPONSE_SCHEMA@,
{
    String::from_str(RESPONSE_SCHEMA)
}

/// How the first choice of a reply is to be read.
pub enum ReplyShape {
    Refused(String),
    Content(String),
    Unexpected,
}

pub enum ShapeModel {
    Refused(Seq<char>),
    Content(Seq<char>),
    Unexpected,
}

impl View for ReplyShape {
    type V = ShapeModel;

    open spec fn view(&self) -> ShapeModel {
        match self {
            ReplyShape::Refused(m) => ShapeModel::Refused(m@),
            ReplyShape::Content(c) => ShapeModel::Content(c@),
            ReplyShape::Unexpected => ShapeModel::Unexpected,
        }
    }
}

/// The refusal of the first choice, if the reply has a choice and it refused.
pub open spec fn first_refusal(reply: ProviderReply) -> Option<Seq<char>> {
    if reply.choices@.len() > 0 {
        opt_view(reply.choices@[0].refusal)
    } else {
        None
    }
}

/// The content of the first choice, if the reply has a choice with content.
pub open spec fn first_content(reply: ProviderReply) -> Option<Seq<char>> {
    if reply.choices@.len() > 0 {
        opt_view(reply.choices@[0].content)
    } else {
        None
    }
}

/// A refusal wins over content; with neither the reply has an unexpected shape.
pub open spec fn shape_of(reply: ProviderReply) -> ShapeModel {
    match first_refusal(reply) {
        Some(m) => ShapeModel::Refused(m),
        None => match first_content(reply) {
            Some(c) => ShapeModel::Content(c),
            None => ShapeModel::Unexpected,
        },
    }
}

fn clone_opt(o: &Option<String>) -> (r: Option<String>)
    ensures
        opt_view(r) == opt_view(*o),
{
    match o {
        Some(s) => Some(s.clone()),
        None => None,
    }
}

/// Reads the first choice of the reply: refusal first, then content.
pub fn classify_reply(reply: &ProviderReply) -> (r: ReplyShape)
    ensures
        r@ == shape_of(*reply),
{
    if reply.choices.len() == 0 {
        return ReplyShape::Unexpected;
    }
    let first: &ReplyMessage = &reply.choices[0];
    match clone_opt(&first.refusal) {
        Some(m) => ReplyShape::Refused(m),
        None => match clone_opt(&first.content) {
            Some(c) => ReplyShape::Content(c),
            None => ReplyShape::Unexpected,
        },
    }
}

/// What `serde_json` gives for a JSON object whose members are all strings:
/// its members, in key order.
pub uninterp spec fn string_object_of(text: Seq<char>) -> Option<Seq<(Seq<char>, Seq<char>)>>;

pub open spec fn pairs_view(pairs: Seq<(String, String)>) -> Seq<(Seq<char>, Seq<char>)> {
    pairs.map_values(|p: (String, String)| (p.0@, p.1@))
}

/// Relies on `serde_json::from_str` into a `BTreeMap<String, String>`: `Ok` on a
/// JSON object whose member values are all strings, the map then holding its
/// members; the map's entries are handed out in key order.
#[verifier::external_body]
fn parse_string_object(text: &str) -> (r: Option<Vec<(String, String)>>)
    ensures
        match r {
            Some(v) => string_object_of(text@) == Some(pairs_view(v@)),
            None => string_object_of(text@) is None,
        },
{
    serde_json::from_str::<std::collections::BTreeMap<String, String>>(text).ok().map(
        |m| m.into_iter().collect(),
    )
}

/// The value of the first member named `key`.
pub open spec fn lookup(pairs: Seq<(Seq<char>, Seq<char>)>, key: Seq<char>) -> Option<Seq<char>>
    decreases pairs.len(),
{
    if pairs.len() == 0 {
        None
    } else if pairs[0].0 == key {
        Some(pairs[0].1)
    } else {
        lookup(pairs.drop_first(), key)
    }
}

/// Every member is one of the two schema fields, and both are present.
pub open spec fn fits_schema(pairs: Seq<(Seq<char>, Seq<char>)>) -> bool {
    &&& forall|i: int|
        0 <= i < pairs.len() ==> (#[trigger] pairs[i]).0 == SUGGESTED_KEY@ || pairs[i].0
            == EXPLANATION_KEY@
    &&& lookup(pairs, SUGGESTED_KEY@) is Some
    &&& lookup(pairs, EXPLANATION_KEY@) is Some
}

/// The outcome for the members of parsed content (`None`: it did not parse).
pub open spec fn parsed_outcome(parsed: Option<Seq<(Seq<char>, Seq<char>)>>) -> OutcomeModel {
    match parsed {
        Some(pairs) => if fits_schema(pairs) {
            OutcomeModel::Suggestion {
                exact_command: lookup(pairs, SUGGESTED_KEY@)->0,
                explanation: lookup(pairs, EXPLANATION_KEY@)->0,
            }
        } else {
            OutcomeModel::Error { detail: SCHEMA_MISMATCH@ }
        },
        None => OutcomeModel::Error { detail: SCHEMA_MISMATCH@ },
    }
}

/// The outcome for a reply envelope that was received and decoded.
pub open spec fn reply_outcome(reply: ProviderReply) -> OutcomeModel {
    match shape_of(reply) {
        ShapeModel::Refused(m) => OutcomeModel::Refusal { message: m },
        ShapeModel::Content(c) => parsed_outcome(string_object_of(c)),
        ShapeModel::Unexpected => OutcomeModel::Error { detail: UNEXPECTED_SHAPE@ },
    }
}

/// The outcome for the whole exchange: a transport or envelope failure is an error.
pub open spec fn fetch_outcome_spec(envelope: Result<ProviderReply, Seq<char>>) -> OutcomeModel {
    match envelope {
        Ok(reply) => reply_outcome(reply),
        Err(detail) => OutcomeModel::Error { detail },
    }
}

/// Looks a member up by name; the first of that name counts.
pub fn find_member(pairs: &Vec<(String, String)>, key: &String) -> (r: Option<String>)
    ensures
        opt_view(r) == lookup(pairs_view(pairs@), key@),
{
    let ghost all = pairs_view(pairs@);
    assert(all.subrange(0, all.len() as int) =~= all);
    let mut i: usize = 0;
    while i < pairs.len()
        invariant
            0 <= i <= pairs@.len(),
            all == pairs_view(pairs@),
            lookup(all, key@) == lookup(all.subrange(i as int, all.len() as int), key@),
        decreases pairs@.len() - i,
    {
        let ghost rest = all.subrange(i as int, all.len() as int);
        assert(rest.drop_first() =~= all.subrange(i + 1, all.len() as int));
        if pairs[i].0 == *key {
            return Some(pairs[i].1.clone());
        }
        i = i + 1;
    }
    assert(all.subrange(i as int, all.len() as int).len() == 0);
    None
}

/// Whether every member is one of the two schema fields.
fn only_schema_members(pairs: &Vec<(String, String)>, sk: &String, ek: &String) -> (r: bool)
    requires
        sk@ == SUGGESTED_KEY@,
        ek@ == EXPLANATION_KEY@,
    ensures
        r == forall|i: int|
            0 <= i < pairs_view(pairs@).len() ==> (#[trigger] pairs_view(pairs@)[i]).0
                == SUGGESTED_KEY@ || pairs_view(pairs@)[i].0 == EXPLANATION_KEY@,
{
    let ghost all = pairs_view(pairs@);
    let mut i: usize = 0;
    while i < pairs.len()
        invariant
            0 <= i <= pairs@.len(),
            all == pairs_view(pairs@),
            sk@ == SUGGESTED_KEY@,
            ek@ == EXPLANATION_KEY@,
            forall|j: int|
                0 <= j < i ==> (#[trigger] all[j]).0 == SUGGESTED_KEY@ || all[j].0
                    == EXPLANATION_KEY@,
        decreases pairs@.len() - i,
    {
        if !(pairs[i].0 == *sk) && !(pairs[i].0 == *ek) {
            assert(all[i as int].0 != SUGGESTED_KEY@ && all[i as int].0 != EXPLANATION_KEY@);
            return false;
        }
        i = i + 1;
    }
    true
}

/// The outcome for parsed content: a suggestion exactly when the members fit the
/// schema, otherwise an error.
pub fn outcome_of_parsed(parsed: Option<Vec<(String, String)>>) -> (r: SuggestionOutcome)
    ensures
        r@ == parsed_outcome(
            match parsed {
                Some(v) => Some(pairs_view(v@)),
                None => None,
            },
        ),
{
    match parsed {
        None => SuggestionOutcome::Error { detail: String::from_str(SCHEMA_MISMATCH) },
        Some(pairs) => {
            let sk = String::from_str(SUGGESTED_KEY);
            let ek = String::from_str(EXPLANATION_KEY);
            let only = only_schema_members(&pairs, &sk, &ek);
            let cmd = find_member(&pairs, &sk);
            let expl = find_member(&pairs, &ek);
            if only {
                match (cmd, expl) {
                    (Some(c), Some(e)) => {
                        return SuggestionOutcome::Suggestion { exact_command: c, explanation: e };
                    },
                    _ => {},
                }
            }
            SuggestionOutcome::Error { detail: String::from_str(SCHEMA_MISMATCH) }
        },
    }
}

/// Parses the structured content of a reply against the schema.
pub fn outcome_of_content(content: &str) -> (r: SuggestionOutcome)
    ensures
        r@ == parsed_outcome(string_object_of(content@)),
{
    outcome_of_parsed(parse_string_object(content))
}

/// Classifies a decoded reply envelope.
pub fn outcome_of_reply(reply: &ProviderReply) -> (r: SuggestionOutcome)
    ensures
        r@ == reply_outcome(*reply),
{
    match classify_reply(reply) {
        ReplyShape::Refused(message) => SuggestionOutcome::Refusal { message },
        ReplyShape::Content(c) => outcome_of_content(c.as_str()),
        ReplyShape::Unexpected => SuggestionOutcome::Error { detail: String::from_str(UNEXPECTED_SHAPE) },
    }
}

/// The Fetcher's verdict on one exchange with the provider: `Err` carries the
/// transport or envelope failure.
pub fn fetch_outcome(envelope: Result<ProviderReply, String>) -> (r: SuggestionOutcome)
    ensures
        r@ == fetch_outcome_spec(
            match envelope {
                Ok(reply) => Ok(reply),
                Err(d) => Err(d@),
            },
        ),
{
    match envelope {
        Ok(reply) => outcome_of_reply(&reply),
        Err(detail) => SuggestionOutcome::Error { detail },
    }
}

/// A reply that does not refuse and whose content is an object holding exactly the
/// two schema fields yields a suggestion made of those two values; when both values
/// are non-empty, so are both fields of the suggestion.
pub proof fn lemma_schema_content_suggests(
    reply: ProviderReply,
    content: Seq<char>,
    pairs: Seq<(Seq<char>, Seq<char>)>,
)
    requires
        first_refusal(reply) is None,
        first_content(reply) == Some(content),
        string_object_of(content) == Some(pairs),
        fits_schema(pairs),
    ensures
        reply_outcome(reply) == (OutcomeModel::Suggestion {
            exact_command: lookup(pairs, SUGGESTED_KEY@)->0,
            explanation: lookup(pairs, EXPLANATION_KEY@)->0,
        }),
        lookup(pairs, SUGGESTED_KEY@)->0.len() > 0 && lookup(pairs, EXPLANATION_KEY@)->0.len()
            > 0 ==> (reply_outcome(reply) matches OutcomeModel::Suggestion {
            exact_command,
            explanation,
        } && exact_command.len() > 0 && explanation.len() > 0),
{
}

/// A reply that carries a refusal yields that refusal, whatever its content: two
/// replies with the same refusal have the same outcome, so the content is never
/// parsed.
pub proof fn lemma_refusal_wins(reply: ProviderReply, other: ProviderReply, message: Seq<char>)
    requires
        first_refusal(reply) == Some(message),
        first_refusal(other) == Some(message),
    ensures
        shape_of(reply) == ShapeModel::Refused(message),
        reply_outcome(reply) == (OutcomeModel::Refusal { message }),
        reply_outcome(reply) == reply_outcome(other),
{
}

/// Without a refusal, a reply with no content, content that is not a JSON object of
/// strings, or content that does not fit the schema yields an error; so does any
/// transport or envelope failure.
pub proof fn lemma_malformed_reply_errs(envelope: Result<ProviderReply, Seq<char>>)
    requires
        match envelope {
            Ok(reply) => first_refusal(reply) is None && match first_content(reply) {
                Some(c) => match string_object_of(c) {
                    Some(pairs) => !fits_schema(pairs),
                    None => true,
                },
                None => true,
            },
            Err(_) => true,
        },
    ensures
        fetch_outcome_spec(envelope) is Error,
{
}

} // verus!
