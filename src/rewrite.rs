//! The content rewriters (milter, MTA hook, script): how their
//! modifications combine and how they change the message.
use crate::headers::{added_header_text, HeaderBlock, Section};
use crate::reply::Reply;
use vstd::prelude::*;
use vstd::string::is_ascii;

verus! {

/// An envelope field that a rewriter may set.
#[derive(Clone, Copy, Debug, PartialEq, Eq, Structural)]
pub enum EnvelopeField {
    From,
    AddRecipient,
    RemoveRecipient,
    Hold,
}

/// A change that a rewriter asks for.
#[derive(Clone, Debug)]
pub enum Modification {
    AddHeader { name: Vec<u8>, value: Vec<u8> },
    ReplaceBody(Vec<u8>),
    SetEnvelope { field: EnvelopeField, value: Vec<u8> },
}

/// What the spam classifier decided.
#[derive(Clone, Debug)]
pub enum SpamAction {
    /// Accept, adding these header lines.
    Allow(Vec<u8>),
    Discard,
    Reject,
}

/// What a script decided.
#[derive(Clone, Debug)]
pub enum ScriptResult {
    Accept(Vec<Modification>),
    /// Accept with a new message body.
    Replace { body: Vec<u8>, modifications: Vec<Modification> },
    /// Refuse with the script's own reply.
    Reject(Vec<u8>),
    Discard,
}

/// The bytes of an optional buffer.
pub open spec fn opt_bytes(o: Option<Vec<u8>>) -> Option<Seq<u8>> {
    match o {
        Some(b) => Some(b@),
        None => None,
    }
}

/// The modifications without any body replacement.
pub open spec fn drop_replacements(s: Seq<Modification>) -> Seq<Modification>
    decreases s.len(),
{
    if s.len() == 0 {
        s
    } else {
        drop_replacements(s.drop_last()) + if s.last() is ReplaceBody {
            Seq::empty()
        } else {
            seq![s.last()]
        }
    }
}

/// How milter and hook modifications combine: when the hook asks for
/// anything, the milter's body replacements give way and the hook's
/// modifications follow the milter's.
pub open spec fn spec_merge(milter: Seq<Modification>, hook: Seq<Modification>) -> Seq<Modification> {
    if hook.len() == 0 {
        milter
    } else {
        drop_replacements(milter) + hook
    }
}

/// The header text that the modifications add, in order.
pub open spec fn added_headers(s: Seq<Modification>) -> Seq<u8>
    decreases s.len(),
{
    if s.len() == 0 {
        Seq::empty()
    } else {
        added_headers(s.drop_last()) + match s.last() {
            Modification::AddHeader { name, value } => added_header_text(name@, value@),
            _ => Seq::empty(),
        }
    }
}

/// The body of the last replacement, if any.
pub open spec fn replaced_body(s: Seq<Modification>) -> Option<Seq<u8>>
    decreases s.len(),
{
    if s.len() == 0 {
        None
    } else {
        match s.last() {
            Modification::ReplaceBody(b) => Some(b@),
            _ => replaced_body(s.drop_last()),
        }
    }
}

/// The envelope changes, in order.
pub open spec fn envelope_changes(s: Seq<Modification>) -> Seq<(EnvelopeField, Seq<u8>)>
    decreases s.len(),
{
    if s.len() == 0 {
        Seq::empty()
    } else {
        envelope_changes(s.drop_last()) + match s.last() {
            Modification::SetEnvelope { field, value } => seq![(field, value@)],
            _ => Seq::empty(),
        }
    }
}

/// Combines the milter's and the hook's modifications.
pub fn merge_modifications(milter: Vec<Modification>, hook: Vec<Modification>) -> (r: Vec<
    Modification,
>)
    ensures
        r@ == spec_merge(milter@, hook@),
{
    if hook.len() == 0 {
        return milter;
    }
    let ghost orig = milter@;
    let mut rest = milter;
    let mut out: Vec<Modification> = Vec::new();
    let ghost mut k: int = 0;
    while rest.len() > 0
        invariant
            0 <= k <= orig.len(),
            rest@ == orig.subrange(k, orig.len() as int),
            out@ == drop_replacements(orig.subrange(0, k)),
        decreases rest@.len(),
    {
        let m = rest.remove(0);
        proof {
            assert(orig.subrange(0, k + 1).drop_last() == orig.subrange(0, k));
            assert(orig.subrange(k + 1, orig.len() as int) == orig.subrange(k, orig.len() as int).remove(0));
        }
        let is_body = matches!(m, Modification::ReplaceBody(_));
        if !is_body {
            out.push(m);
        }
        proof {
            k = k + 1;
        }
        assert(out@ =~= drop_replacements(orig.subrange(0, k)));
    }
    assert(orig.subrange(0, k) == orig);
    let mut hook = hook;
    out.append(&mut hook);
    out
}

/// The effect of a list of modifications: headers are added to the block
/// in order, the last body replacement wins, and envelope changes are
/// handed back in order.
pub fn apply_modifications(
    headers: &mut HeaderBlock,
    mods: Vec<Modification>,
    body: Option<Vec<u8>>,
) -> (r: (Option<Vec<u8>>, Vec<(EnvelopeField, Vec<u8>)>))
    requires
        old(headers).wf(),
        Section::Rewriter.spec_rank() >= old(headers).next_rank(),
    ensures
        final(headers).wf(),
        final(headers)@ == old(headers)@ + added_headers(mods@),
        final(headers).next_rank() == if added_headers(mods@).len() == 0 { old(headers).next_rank() } else { Section::Rewriter.spec_rank() },
        opt_bytes(r.0) == match replaced_body(mods@) {
            Some(b) => Some(b),
            None => opt_bytes(body),
        },
        r.1@.map_values(|c: (EnvelopeField, Vec<u8>)| (c.0, c.1@)) == envelope_changes(mods@),
{
    let ghost orig = mods@;
    let mut rest = mods;
    let mut edited = body;
    let mut env: Vec<(EnvelopeField, Vec<u8>)> = Vec::new();
    let ghost mut k: int = 0;
    let ghost start = headers@;
    let ghost start_rank = headers.next_rank();
    while rest.len() > 0
        invariant
            0 <= k <= orig.len(),
            rest@ == orig.subrange(k, orig.len() as int),
            headers.wf(),
            headers@ == start + added_headers(orig.subrange(0, k)),
            headers.next_rank() == if added_headers(orig.subrange(0, k)).len() == 0 { start_rank } else { Section::Rewriter.spec_rank() },
            Section::Rewriter.spec_rank() >= headers.next_rank(),
            opt_bytes(edited) == match replaced_body(orig.subrange(0, k)) {
                Some(b) => Some(b),
                None => opt_bytes(body),
            },
            env@.map_values(|c: (EnvelopeField, Vec<u8>)| (c.0, c.1@)) == envelope_changes(orig.subrange(0, k)),
        decreases rest@.len(),
    {
        let m = rest.remove(0);
        proof {
            assert(orig.subrange(0, k + 1).drop_last() == orig.subrange(0, k));
            assert(orig.subrange(k + 1, orig.len() as int) == orig.subrange(k, orig.len() as int).remove(0));
        }
        match m {
            Modification::AddHeader { name, value } => {
                headers.add_header(name.as_slice(), value.as_slice());
                proof {
                    reveal_strlit(": ");
                    assert(is_ascii(": "));
                    assert(added_header_text(name@, value@).len() >= 2);
                }
            },
            Modification::ReplaceBody(b) => {
                edited = Some(b);
            },
            Modification::SetEnvelope { field, value } => {
                env.push((field, value));
            },
        }
        proof {
            k = k + 1;
        }
        assert(env@.map_values(|c: (EnvelopeField, Vec<u8>)| (c.0, c.1@)) =~= envelope_changes(orig.subrange(0, k)));
    }
    assert(orig.subrange(0, k) == orig);
    (edited, env)
}

/// The spam stage: a discard is answered as accepted, a reject refused;
/// an accepted message gets the classifier's headers.
pub fn spam_stage(headers: &mut HeaderBlock, action: SpamAction) -> (r: Option<Reply>)
    requires
        old(headers).wf(),
        Section::SpamFilter.spec_rank() >= old(headers).next_rank(),
    ensures
        final(headers).wf(),
        match action {
            SpamAction::Allow(h) => r is None && final(headers)@ == old(headers)@ + h@
                && (h@.len() > 0 ==> final(headers).next_rank() == Section::SpamFilter.spec_rank())
                && (h@.len() == 0 ==> final(headers).next_rank() == old(headers).next_rank()),
            SpamAction::Discard => r == Some(Reply::QueuedForDelivery) && *final(headers) == *old(headers),
            SpamAction::Reject => r == Some(Reply::SpamRejected) && *final(headers) == *old(headers),
        },
{
    match action {
        SpamAction::Allow(h) => {
            if h.len() > 0 {
                headers.add_spam_headers(h.as_slice());
            } else {
                assert(headers@ == headers@ + h@);
            }
            None
        },
        SpamAction::Discard => Some(Reply::QueuedForDelivery),
        SpamAction::Reject => Some(Reply::SpamRejected),
    }
}

/// The script stage: a reject ends with the script's own reply, a discard
/// is answered as accepted; otherwise its modifications are applied, over
/// the new body when it replaced one.
pub fn script_stage(
    headers: &mut HeaderBlock,
    result: ScriptResult,
    body: Option<Vec<u8>>,
) -> (r: Result<(Option<Vec<u8>>, Vec<(EnvelopeField, Vec<u8>)>), Reply>)
    requires
        old(headers).wf(),
        Section::Rewriter.spec_rank() >= old(headers).next_rank(),
    ensures
        final(headers).wf(),
        Section::Rewriter.spec_rank() >= final(headers).next_rank(),
        match result {
            ScriptResult::Reject(reply) => r == Err::<(Option<Vec<u8>>, Vec<(EnvelopeField, Vec<u8>)>), Reply>(Reply::Custom(reply))
                && *final(headers) == *old(headers),
            ScriptResult::Discard => r == Err::<(Option<Vec<u8>>, Vec<(EnvelopeField, Vec<u8>)>), Reply>(Reply::QueuedForDelivery)
                && *final(headers) == *old(headers),
            ScriptResult::Accept(mods) => r is Ok && final(headers)@ == old(headers)@ + added_headers(mods@)
                && opt_bytes(r->Ok_0.0) == match replaced_body(mods@) {
                    Some(b) => Some(b),
                    None => opt_bytes(body),
                }
                && r->Ok_0.1@.map_values(|c: (EnvelopeField, Vec<u8>)| (c.0, c.1@)) == envelope_changes(mods@),
            ScriptResult::Replace { body: new_body, modifications: mods } => r is Ok
                && final(headers)@ == old(headers)@ + added_headers(mods@)
                && opt_bytes(r->Ok_0.0) == match replaced_body(mods@) {
                    Some(b) => Some(b),
                    None => Some(new_body@),
                }
                && r->Ok_0.1@.map_values(|c: (EnvelopeField, Vec<u8>)| (c.0, c.1@)) == envelope_changes(mods@),
        },
{
    match result {
        ScriptResult::Reject(reply) => Err(Reply::Custom(reply)),
        ScriptResult::Discard => Err(Reply::QueuedForDelivery),
        ScriptResult::Accept(mods) => Ok(apply_modifications(headers, mods, body)),
        ScriptResult::Replace { body: new_body, modifications: mods } => Ok(
            apply_modifications(headers, mods, Some(new_body)),
        ),
    }
}

/// With no modifications from any rewriter, nothing changes: the merged
/// list is empty, no header is added, the body and the envelope stay.
pub proof fn lemma_no_rewriters_change_nothing()
    ensures
        spec_merge(Seq::empty(), Seq::empty()) == Seq::<Modification>::empty(),
        added_headers(Seq::empty()) == Seq::<u8>::empty(),
        replaced_body(Seq::empty()) is None,
        envelope_changes(Seq::empty()) == Seq::<(EnvelopeField, Seq<u8>)>::empty(),
{
}

/// A body replacement from the hook always wins over one from the milter.
pub proof fn lemma_hook_body_wins(milter: Seq<Modification>, hook: Seq<Modification>)
    requires
        replaced_body(hook) is Some,
    ensures
        replaced_body(spec_merge(milter, hook)) == replaced_body(hook),
    decreases hook.len(),
{
    lemma_replacements_dropped(milter);
    lemma_replaced_body_concat(drop_replacements(milter), hook);
}

proof fn lemma_replacements_dropped(s: Seq<Modification>)
    ensures
        replaced_body(drop_replacements(s)) is None,
    decreases s.len(),
{
    if s.len() > 0 {
        lemma_replacements_dropped(s.drop_last());
        let d = drop_replacements(s.drop_last());
        if !(s.last() is ReplaceBody) {
            assert((d + seq![s.last()]).drop_last() == d);
        } else {
            assert(d + Seq::<Modification>::empty() == d);
        }
    }
}

proof fn lemma_replaced_body_concat(a: Seq<Modification>, b: Seq<Modification>)
    requires
        replaced_body(b) is Some,
    ensures
        replaced_body(a + b) == replaced_body(b),
    decreases b.len(),
{
    if b.len() > 0 {
        assert((a + b).drop_last() == a + b.drop_last());
        if !(b.last() is ReplaceBody) {
            lemma_replaced_body_concat(a, b.drop_last());
        }
    }
}

} // verus!
