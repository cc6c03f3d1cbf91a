//! What the pipeline reads from the received message itself: whether it
//! parses, and the facts of its header block.
use crate::reply::Reply;
use vstd::prelude::*;

verus! {

/// How the parser names one header of the message.
#[derive(Clone, Copy, Debug, PartialEq, Eq, Structural)]
pub enum HeaderKind {
    Received,
    Date,
    MessageId,
    /// Any other header name that the parser knows.
    Recognised,
    /// A header name that the parser does not know.
    Unrecognised,
}

/// The kinds of the top-level headers, in order, as the message parser reads
/// `raw`; `None` where it finds no message.
pub uninterp spec fn parsed_header_kinds(raw: Seq<u8>) -> Option<Seq<HeaderKind>>;

/// Relies on `mail_parser::MessageParser::parse`: `None` when no message is
/// found, else the names of the root part's headers, in order.
#[verifier::external_body]
fn header_kinds(raw: &[u8]) -> (r: Option<Vec<HeaderKind>>)
    ensures
        match r {
            Some(v) => parsed_header_kinds(raw@) == Some(v@),
            None => parsed_header_kinds(raw@) is None,
        },
{
    mail_parser::MessageParser::new().parse(raw).map(
        |m|
            m.headers().iter().map(
                |h| match h.name {
                    mail_parser::HeaderName::Received => HeaderKind::Received,
                    mail_parser::HeaderName::Date => HeaderKind::Date,
                    mail_parser::HeaderName::MessageId => HeaderKind::MessageId,
                    mail_parser::HeaderName::Other(_) => HeaderKind::Unrecognised,
                    _ => HeaderKind::Recognised,
                },
            ).collect(),
    )
}

/// The facts of a message's header block that the pipeline acts upon.
#[derive(Clone, Copy, Debug, PartialEq, Eq, Structural)]
pub struct MessageFacts {
    pub received_count: u64,
    pub has_date: bool,
    pub has_message_id: bool,
}

/// How many headers of `kind` the sequence holds.
pub open spec fn count_kind(s: Seq<HeaderKind>, kind: HeaderKind) -> nat
    decreases s.len(),
{
    if s.len() == 0 {
        0
    } else {
        count_kind(s.drop_last(), kind) + if s.last() == kind {
            1nat
        } else {
            0nat
        }
    }
}

/// A header block counts as a message when some header name is known.
pub open spec fn has_recognised(s: Seq<HeaderKind>) -> bool {
    exists|i: int| 0 <= i < s.len() && s[i] != HeaderKind::Unrecognised
}

pub open spec fn facts_of(s: Seq<HeaderKind>) -> MessageFacts {
    MessageFacts {
        received_count: count_kind(s, HeaderKind::Received) as u64,
        has_date: count_kind(s, HeaderKind::Date) > 0,
        has_message_id: count_kind(s, HeaderKind::MessageId) > 0,
    }
}

/// The facts of a raw message; `None` when it does not parse as one.
pub open spec fn spec_inspect(raw: Seq<u8>) -> Option<MessageFacts> {
    match parsed_header_kinds(raw) {
        Some(s) => if has_recognised(s) {
            Some(facts_of(s))
        } else {
            None
        },
        None => None,
    }
}

/// The outcome of the parse and loop-detection stages.
pub open spec fn spec_precheck(raw: Seq<u8>, max_received: u64) -> Result<MessageFacts, Reply> {
    match spec_inspect(raw) {
        None => Err(Reply::ParseFailed),
        Some(f) => if f.received_count > max_received {
            Err(Reply::LoopDetected)
        } else {
            Ok(f)
        },
    }
}

proof fn lemma_count_le(s: Seq<HeaderKind>, kind: HeaderKind)
    ensures
        count_kind(s, kind) <= s.len(),
    decreases s.len(),
{
    if s.len() > 0 {
        lemma_count_le(s.drop_last(), kind);
    }
}

/// Reads the facts of a header block.
pub fn header_facts(kinds: &Vec<HeaderKind>) -> (r: Option<MessageFacts>)
    ensures
        r == (if has_recognised(kinds@) {
            Some(facts_of(kinds@))
        } else {
            None
        }),
{
    let mut received: u64 = 0;
    let mut dates: u64 = 0;
    let mut ids: u64 = 0;
    let mut known = false;
    let mut i: usize = 0;
    while i < kinds.len()
        invariant
            0 <= i <= kinds@.len(),
            received == count_kind(kinds@.subrange(0, i as int), HeaderKind::Received),
            dates == count_kind(kinds@.subrange(0, i as int), HeaderKind::Date),
            ids == count_kind(kinds@.subrange(0, i as int), HeaderKind::MessageId),
            known == exists|j: int| 0 <= j < i && kinds@[j] != HeaderKind::Unrecognised,
        decreases kinds@.len() - i,
    {
        let k = kinds[i];
        let ghost pre = kinds@.subrange(0, i as int);
        let ghost next = kinds@.subrange(0, i + 1);
        proof {
            assert(next.drop_last() == pre);
            lemma_count_le(pre, HeaderKind::Received);
            lemma_count_le(pre, HeaderKind::Date);
            lemma_count_le(pre, HeaderKind::MessageId);
        }
        if k == HeaderKind::Received {
            received = received + 1;
        } else if k == HeaderKind::Date {
            dates = dates + 1;
        } else if k == HeaderKind::MessageId {
            ids = ids + 1;
        }
        if k != HeaderKind::Unrecognised {
            known = true;
        }
        i = i + 1;
    }
    assert(kinds@.subrange(0, kinds@.len() as int) == kinds@);
    if known {
        Some(MessageFacts { received_count: received, has_date: dates > 0, has_message_id: ids > 0 })
    } else {
        None
    }
}

/// Parses a received message and reads its header facts; `None` when the
/// bytes hold no message with a header that the parser knows.
pub fn inspect_message(raw: &[u8]) -> (r: Option<MessageFacts>)
    ensures
        r == spec_inspect(raw@),
{
    match header_kinds(raw) {
        Some(kinds) => header_facts(&kinds),
        None => None,
    }
}

/// The parse and loop-detection stages: a message that does not parse is
/// refused; one with more `Received` headers than `max_received` is held
/// as a probable loop.
pub fn precheck(raw: &[u8], max_received: u64) -> (r: Result<MessageFacts, Reply>)
    ensures
        r == spec_precheck(raw@, max_received),
{
    match inspect_message(raw) {
        None => Err(Reply::ParseFailed),
        Some(f) => if f.received_count > max_received {
            Err(Reply::LoopDetected)
        } else {
            Ok(f)
        },
    }
}

} // verus!
