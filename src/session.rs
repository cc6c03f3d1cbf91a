//! What the session contributes to the DATA phase: whether DATA may start,
//! and the queued message record built from the envelope.
use crate::reply::Reply;
use crate::schedule::{
    all_fit, schedule_recipients, sort_recipients, sorted_by_address, spec_queued, QueueSettings,
    QueuedRecipient, RcptAddress, MAIL_BY_RETURN,
};
use vstd::prelude::*;

verus! {

/// The number of messages a session may send when none is configured.
pub const DEFAULT_MAX_MESSAGES: u64 = 10;

/// The sender given by `MAIL FROM`.
#[derive(Clone, Debug)]
pub struct SessionAddress {
    pub address: Vec<u8>,
    pub address_lcase: Vec<u8>,
    pub domain: Vec<u8>,
    pub flags: u64,
    /// The DSN envelope id, if given.
    pub dsn_info: Option<Vec<u8>>,
}

/// The envelope and connection facts that a queued message records.
#[derive(Clone, Debug)]
pub struct SessionData {
    pub mail_from: SessionAddress,
    pub priority: i16,
    /// The client's address, in text.
    pub remote_ip: Vec<u8>,
    pub local_port: u16,
    /// Seconds until the message may be delivered (`HOLDFOR`/`HOLDUNTIL`).
    pub future_release: u64,
    /// The `BY` deadline in seconds; zero when none was given.
    pub delivery_by: i64,
}

/// A message record as handed to the queue.
#[derive(Clone, Debug)]
pub struct QueuedMessage {
    pub queue_id: u64,
    /// Creation time, seconds since the epoch.
    pub created: u64,
    pub return_path: Vec<u8>,
    pub return_path_lcase: Vec<u8>,
    pub return_path_domain: Vec<u8>,
    pub recipients: Vec<QueuedRecipient>,
    pub flags: u64,
    pub priority: i16,
    pub size: u64,
    pub env_id: Option<Vec<u8>>,
    pub received_from_ip: Vec<u8>,
    pub received_via_port: u16,
}

/// Whether the session may start DATA: it needs a recipient, and must not
/// have reached its message limit.
pub open spec fn spec_can_send_data(rcpt_count: nat, messages_sent: u64, max_messages: u64) -> Result<(), Reply> {
    if rcpt_count == 0 {
        Err(Reply::RcptMissing)
    } else if messages_sent >= max_messages {
        Err(Reply::TooManyMessages)
    } else {
        Ok(())
    }
}

/// Decides whether DATA may start; an `Err` holds the reply to send.
pub fn can_send_data(rcpt_count: usize, messages_sent: u64, max_messages: u64) -> (r: Result<(), Reply>)
    ensures
        r == spec_can_send_data(rcpt_count as nat, messages_sent, max_messages),
{
    if rcpt_count == 0 {
        Err(Reply::RcptMissing)
    } else if messages_sent >= max_messages {
        Err(Reply::TooManyMessages)
    } else {
        Ok(())
    }
}

/// The recipients as scheduled, `rcpts[i]` on `queues[i]`, in input order.
pub open spec fn spec_scheduled(
    rcpts: Seq<RcptAddress>,
    queues: Seq<QueueSettings>,
    future_release: u64,
    delivery_by: i64,
    by_return: bool,
) -> Seq<QueuedRecipient> {
    Seq::new(
        rcpts.len(),
        |i: int| spec_queued(rcpts[i], queues[i], future_release, delivery_by, by_return),
    )
}

/// Builds the message record for queue id `queue_id`: the sender becomes the
/// return path, each recipient is scheduled on its queue (`queues[i]` for
/// `rcpts[i]`), and the recipients are stored in order of their lower-case
/// address. The size is set once the message is complete.
pub fn build_message(
    data: SessionData,
    rcpts: Vec<RcptAddress>,
    queues: Vec<QueueSettings>,
    queue_id: u64,
    created: u64,
) -> (r: QueuedMessage)
    requires
        rcpts@.len() == queues@.len(),
        all_fit(queues@, data.future_release),
    ensures
        r.queue_id == queue_id,
        r.created == created,
        r.return_path@ == data.mail_from.address@,
        r.return_path_lcase@ == data.mail_from.address_lcase@,
        r.return_path_domain@ == data.mail_from.domain@,
        r.flags == data.mail_from.flags,
        r.priority == data.priority,
        r.size == 0,
        r.env_id == data.mail_from.dsn_info,
        r.received_from_ip@ == data.remote_ip@,
        r.received_via_port == data.local_port,
        sorted_by_address(r.recipients@),
        r.recipients@.to_multiset() == spec_scheduled(
            rcpts@,
            queues@,
            data.future_release,
            data.delivery_by,
            data.mail_from.flags & MAIL_BY_RETURN != 0,
        ).to_multiset(),
{
    let by_return = crate::schedule::returns_at_deadline(data.mail_from.flags);
    let ghost expected = spec_scheduled(
        rcpts@,
        queues@,
        data.future_release,
        data.delivery_by,
        by_return,
    );
    let scheduled = schedule_recipients(rcpts, queues, data.future_release, data.delivery_by, by_return);
    assert(scheduled@ =~= expected);
    let recipients = sort_recipients(scheduled);
    let SessionData { mail_from, priority, remote_ip, local_port, future_release: _, delivery_by: _ } = data;
    let SessionAddress { address, address_lcase, domain, flags, dsn_info } = mail_from;
    QueuedMessage {
        queue_id,
        created,
        return_path: address,
        return_path_lcase: address_lcase,
        return_path_domain: domain,
        recipients,
        flags,
        priority,
        size: 0,
        env_id: dsn_info,
        received_from_ip: remote_ip,
        received_via_port: local_port,
    }
}

} // verus!
