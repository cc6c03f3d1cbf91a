//! The keys under which the queue store keeps per-recipient events and
//! report events.
use crate::text::append_bytes;
use vstd::prelude::*;

verus! {

/// The eight big-endian bytes of `n`.
pub open spec fn be64(n: u64) -> Seq<u8> {
    seq![
        (n >> 56u64) as u8,
        (n >> 48u64) as u8,
        (n >> 40u64) as u8,
        (n >> 32u64) as u8,
        (n >> 24u64) as u8,
        (n >> 16u64) as u8,
        (n >> 8u64) as u8,
        n as u8,
    ]
}

/// Appends `n` in big-endian order.
pub fn append_be64(out: &mut Vec<u8>, n: u64)
    ensures
        final(out)@ == old(out)@ + be64(n),
{
    let ghost start = out@;
    out.push((n >> 56u64) as u8);
    out.push((n >> 48u64) as u8);
    out.push((n >> 40u64) as u8);
    out.push((n >> 32u64) as u8);
    out.push((n >> 24u64) as u8);
    out.push((n >> 16u64) as u8);
    out.push((n >> 8u64) as u8);
    out.push(n as u8);
    assert(out@ =~= start + be64(n));
}

/// The key of a recipient event: when it is due, the message's queue id
/// and the queue's eight-byte name.
pub open spec fn spec_queue_event_key(due: u64, queue_id: u64, queue_name: Seq<u8>) -> Seq<u8> {
    be64(due) + be64(queue_id) + queue_name
}

/// The key of a report event: when it is due, the policy hash, a sequence
/// id, the domain and the kind of report.
pub open spec fn spec_report_event_key(
    due: u64,
    policy_hash: u64,
    seq_id: u64,
    domain: Seq<u8>,
    kind: u8,
) -> Seq<u8> {
    be64(due) + be64(policy_hash) + be64(seq_id) + domain + seq![kind]
}

/// Builds the key of a recipient event.
pub fn queue_event_key(due: u64, queue_id: u64, queue_name: &[u8; 8]) -> (r: Vec<u8>)
    ensures
        r@ == spec_queue_event_key(due, queue_id, queue_name@),
{
    let mut out: Vec<u8> = Vec::new();
    append_be64(&mut out, due);
    append_be64(&mut out, queue_id);
    append_bytes(&mut out, queue_name.as_slice());
    out
}

/// Builds the key of a report event.
pub fn report_event_key(due: u64, policy_hash: u64, seq_id: u64, domain: &[u8], kind: u8) -> (r: Vec<
    u8,
>)
    ensures
        r@ == spec_report_event_key(due, policy_hash, seq_id, domain@, kind),
{
    let mut out: Vec<u8> = Vec::new();
    append_be64(&mut out, due);
    append_be64(&mut out, policy_hash);
    append_be64(&mut out, seq_id);
    append_bytes(&mut out, domain);
    out.push(kind);
    out
}

} // verus!
