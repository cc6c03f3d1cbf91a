//! Recipient scheduling: the order in which recipients are stored, their
//! DSN flags, and when each is retried, notified about and expired.
use vstd::prelude::*;
use vstd::seq_lib::{to_multiset_build, to_multiset_insert};

verus! {

/// DSN `NOTIFY=SUCCESS`.
pub const RCPT_NOTIFY_SUCCESS: u64 = 1;
/// DSN `NOTIFY=FAILURE`.
pub const RCPT_NOTIFY_FAILURE: u64 = 2;
/// DSN `NOTIFY=DELAY`.
pub const RCPT_NOTIFY_DELAY: u64 = 4;
/// DSN `NOTIFY=NEVER`.
pub const RCPT_NOTIFY_NEVER: u64 = 8;
/// `MAIL FROM ... BY=...;R`: return the message when the deadline passes.
pub const MAIL_BY_RETURN: u64 = 512;
/// The notification interval used when a queue has none configured.
pub const DEFAULT_NOTIFY_SECS: u64 = 86400;

/// A recipient as accepted by `RCPT TO`.
#[derive(Clone, Debug)]
pub struct RcptAddress {
    pub address: Vec<u8>,
    pub address_lcase: Vec<u8>,
    /// DSN and other flags given with the command.
    pub flags: u64,
    /// The `ORCPT` address given by the client, if any.
    pub orcpt: Option<Vec<u8>>,
}

/// When a queue gives up on a message.
#[derive(Clone, Copy, Debug, PartialEq, Eq, Structural)]
pub enum QueueExpiry {
    /// After this many seconds.
    Duration(u64),
    /// After this many delivery attempts.
    Count(u32),
}

/// The settings of the virtual queue that a recipient is assigned to.
#[derive(Clone, Debug)]
pub struct QueueSettings {
    pub name: Vec<u8>,
    /// Notification intervals in seconds.
    pub notify: Vec<u64>,
    pub expiry: QueueExpiry,
}

/// A point in time, in seconds from now, with the count of notifications
/// still due after it.
#[derive(Clone, Copy, Debug, PartialEq, Eq, Structural)]
pub struct Schedule {
    pub due_in: u64,
    pub remaining: u32,
}

/// The timing of one recipient.
#[derive(Clone, Copy, Debug, PartialEq, Eq, Structural)]
pub struct RecipientTiming {
    pub retry: Schedule,
    pub notify: Schedule,
    pub expires: QueueExpiry,
}

/// `a` comes no later than `b` in byte-wise lexicographic order.
pub open spec fn bytes_le(a: Seq<u8>, b: Seq<u8>) -> bool
    decreases a.len(),
{
    if a.len() == 0 {
        true
    } else if b.len() == 0 {
        false
    } else if a[0] != b[0] {
        a[0] < b[0]
    } else {
        bytes_le(a.drop_first(), b.drop_first())
    }
}

/// A recipient, with the lower-case address that orders it.
pub trait Addressed {
    spec fn spec_lcase(&self) -> Seq<u8>;

    /// The lower-case address.
    fn lcase(&self) -> (r: &[u8])
        ensures
            r@ == self.spec_lcase(),
    ;
}

impl Addressed for RcptAddress {
    open spec fn spec_lcase(&self) -> Seq<u8> {
        self.address_lcase@
    }

    fn lcase(&self) -> (r: &[u8]) {
        self.address_lcase.as_slice()
    }
}

/// Recipients in order of their lower-case address.
pub open spec fn sorted_by_address<T: Addressed>(s: Seq<T>) -> bool {
    forall|i: int| 0 <= i < s.len() - 1 ==> bytes_le(#[trigger] s[i].spec_lcase(), s[i + 1].spec_lcase())
}

/// The DSN flags stored for a recipient: as given, or `DELAY` and
/// `FAILURE` when none of the notify flags was given.
pub open spec fn spec_notify_flags(flags: u64) -> u64 {
    if flags & (RCPT_NOTIFY_DELAY | RCPT_NOTIFY_FAILURE | RCPT_NOTIFY_SUCCESS | RCPT_NOTIFY_NEVER) != 0 {
        flags
    } else {
        flags | RCPT_NOTIFY_DELAY | RCPT_NOTIFY_FAILURE
    }
}

/// The first notification interval of a queue.
pub open spec fn first_interval(q: QueueSettings) -> u64 {
    if q.notify@.len() > 0 {
        q.notify@[0]
    } else {
        DEFAULT_NOTIFY_SECS
    }
}

/// How many notifications a queue sends.
pub open spec fn num_intervals(q: QueueSettings) -> nat {
    if q.notify@.len() > 1 {
        q.notify@.len()
    } else {
        1
    }
}

/// The magnitude of a signed number of seconds.
pub open spec fn abs_secs(d: i64) -> u64 {
    if d >= 0 {
        d as u64
    } else {
        (-(d as int)) as u64
    }
}

/// The delay of the first notification when a delivery deadline is set and
/// the message is not to be returned at it.
pub open spec fn deadline_notify(expiry_secs: u64, delivery_by: i64, next_notify: u64) -> u64 {
    if delivery_by > 0 {
        if expiry_secs > delivery_by as u64 {
            delivery_by as u64
        } else {
            next_notify
        }
    } else {
        if expiry_secs > abs_secs(delivery_by) {
            (expiry_secs - abs_secs(delivery_by)) as u64
        } else {
            next_notify
        }
    }
}

/// The additions to `future_release` stay within 64 bits.
pub open spec fn timing_fits(q: QueueSettings, future_release: u64) -> bool {
    &&& future_release + first_interval(q) <= u64::MAX
    &&& (q.expiry matches QueueExpiry::Duration(t) ==> future_release + t <= u64::MAX)
}

pub open spec fn spec_timing(
    q: QueueSettings,
    future_release: u64,
    delivery_by: i64,
    by_return: bool,
) -> RecipientTiming {
    let next = first_interval(q);
    let retry = Schedule { due_in: future_release, remaining: 0 };
    if delivery_by == 0 {
        RecipientTiming {
            retry,
            notify: Schedule { due_in: (future_release + next) as u64, remaining: 0 },
            expires: match q.expiry {
                QueueExpiry::Duration(t) => QueueExpiry::Duration((future_release + t) as u64),
                QueueExpiry::Count(c) => QueueExpiry::Count(c),
            },
        }
    } else if by_return {
        RecipientTiming {
            retry,
            notify: Schedule { due_in: (future_release + next) as u64, remaining: 0 },
            expires: QueueExpiry::Duration(abs_secs(delivery_by)),
        }
    } else {
        let (delay, expires) = match q.expiry {
            QueueExpiry::Duration(e) => (
                deadline_notify(e, delivery_by, next),
                QueueExpiry::Duration(e),
            ),
            QueueExpiry::Count(_) => (next, QueueExpiry::Duration(abs_secs(delivery_by))),
        };
        RecipientTiming {
            retry,
            notify: Schedule {
                due_in: (future_release + delay) as u64,
                remaining: (num_intervals(q) - 1) as u32,
            },
            expires,
        }
    }
}

/// The stored DSN flags of a recipient.
pub fn notify_flags(flags: u64) -> (r: u64)
    ensures
        r == spec_notify_flags(flags),
{
    if flags & (RCPT_NOTIFY_DELAY | RCPT_NOTIFY_FAILURE | RCPT_NOTIFY_SUCCESS | RCPT_NOTIFY_NEVER) != 0 {
        flags
    } else {
        flags | RCPT_NOTIFY_DELAY | RCPT_NOTIFY_FAILURE
    }
}

/// The retry, notification and expiry times of a recipient assigned to
/// queue `q`, for a message released `future_release` seconds from now
/// with the `BY` deadline `delivery_by` (zero when none was given).
pub fn recipient_timing(
    q: &QueueSettings,
    future_release: u64,
    delivery_by: i64,
    by_return: bool,
) -> (r: RecipientTiming)
    requires
        timing_fits(*q, future_release),
        q.notify@.len() <= u32::MAX + 1,
    ensures
        r == spec_timing(*q, future_release, delivery_by, by_return),
{
    let next: u64 = if q.notify.len() > 0 {
        q.notify[0]
    } else {
        DEFAULT_NOTIFY_SECS
    };
    let intervals: usize = if q.notify.len() > 1 {
        q.notify.len()
    } else {
        1
    };
    let abs: u64 = if delivery_by >= 0 {
        delivery_by as u64
    } else if delivery_by == i64::MIN {
        9223372036854775808u64
    } else {
        (-delivery_by) as u64
    };
    let retry = Schedule { due_in: future_release, remaining: 0 };
    if delivery_by == 0 {
        RecipientTiming {
            retry,
            notify: Schedule { due_in: future_release + next, remaining: 0 },
            expires: match q.expiry {
                QueueExpiry::Duration(t) => QueueExpiry::Duration(future_release + t),
                QueueExpiry::Count(c) => QueueExpiry::Count(c),
            },
        }
    } else if by_return {
        RecipientTiming {
            retry,
            notify: Schedule { due_in: future_release + next, remaining: 0 },
            expires: QueueExpiry::Duration(abs),
        }
    } else {
        let (delay, expires) = match q.expiry {
            QueueExpiry::Duration(e) => {
                let d: u64 = if delivery_by > 0 {
                    if e > abs {
                        abs
                    } else {
                        next
                    }
                } else {
                    if e > abs {
                        e - abs
                    } else {
                        next
                    }
                };
                (d, QueueExpiry::Duration(e))
            },
            QueueExpiry::Count(_) => (next, QueueExpiry::Duration(abs)),
        };
        RecipientTiming {
            retry,
            notify: Schedule { due_in: future_release + delay, remaining: (intervals - 1) as u32 },
            expires,
        }
    }
}

proof fn lemma_bytes_le_total(a: Seq<u8>, b: Seq<u8>)
    ensures
        bytes_le(a, b) || bytes_le(b, a),
    decreases a.len(),
{
    if a.len() > 0 && b.len() > 0 && a[0] == b[0] {
        lemma_bytes_le_total(a.drop_first(), b.drop_first());
    }
}

/// Compares two byte strings lexicographically.
pub fn bytes_le_exec(a: &[u8], b: &[u8]) -> (r: bool)
    ensures
        r == bytes_le(a@, b@),
{
    let mut i: usize = 0;
    assert(a@.subrange(0, a@.len() as int) == a@);
    assert(b@.subrange(0, b@.len() as int) == b@);
    while i < a.len() && i < b.len() && a[i] == b[i]
        invariant
            0 <= i <= a@.len(),
            i <= b@.len(),
            bytes_le(a@, b@) == bytes_le(a@.subrange(i as int, a@.len() as int), b@.subrange(i as int, b@.len() as int)),
        decreases a@.len() - i,
    {
        let ghost sa = a@.subrange(i as int, a@.len() as int);
        let ghost sb = b@.subrange(i as int, b@.len() as int);
        assert(sa.drop_first() == a@.subrange(i + 1, a@.len() as int));
        assert(sb.drop_first() == b@.subrange(i + 1, b@.len() as int));
        i = i + 1;
    }
    let ghost sa = a@.subrange(i as int, a@.len() as int);
    let ghost sb = b@.subrange(i as int, b@.len() as int);
    if i == a.len() {
        assert(sa.len() == 0);
        true
    } else if i == b.len() {
        false
    } else {
        assert(sa[0] == a@[i as int] && sb[0] == b@[i as int]);
        a[i] < b[i]
    }
}

/// Orders recipients by lower-case address (an insertion sort that places
/// each recipient after those whose address is not greater).
pub fn sort_recipients<T: Addressed>(rcpts: Vec<T>) -> (r: Vec<T>)
    ensures
        sorted_by_address(r@),
        r@.to_multiset() == rcpts@.to_multiset(),
{
    let ghost orig = rcpts@;
    let mut rest = rcpts;
    let mut out: Vec<T> = Vec::new();
    let ghost mut k: int = 0;
    assert(out@ =~= orig.subrange(0, 0));
    assert(rest@ =~= orig.subrange(0, orig.len() as int));
    while rest.len() > 0
        invariant
            0 <= k <= orig.len(),
            rest@ == orig.subrange(k, orig.len() as int),
            sorted_by_address(out@),
            out@.to_multiset() == orig.subrange(0, k).to_multiset(),
        decreases rest@.len(),
    {
        let x = rest.remove(0);
        proof {
            assert(orig.subrange(k + 1, orig.len() as int) == orig.subrange(k, orig.len() as int).remove(0));
            assert(orig.subrange(0, k + 1) == orig.subrange(0, k).push(x));
            to_multiset_build(orig.subrange(0, k), x);
        }
        let mut j: usize = out.len();
        while j > 0 && !bytes_le_exec(out[j - 1].lcase(), x.lcase())
            invariant
                0 <= j <= out@.len(),
                j < out@.len() ==> !bytes_le(out@[j as int].spec_lcase(), x.spec_lcase()),
            decreases j,
        {
            j = j - 1;
        }
        let ghost before = out@;
        proof {
            if j < before.len() {
                lemma_bytes_le_total(before[j as int].spec_lcase(), x.spec_lcase());
            }
            to_multiset_insert(before, j as int, x);
        }
        out.insert(j, x);
        assert forall|i: int| 0 <= i < out@.len() - 1 implies bytes_le(
            #[trigger] out@[i].spec_lcase(),
            out@[i + 1].spec_lcase(),
        ) by {
            if i + 1 < j {
                assert(out@[i] == before[i] && out@[i + 1] == before[i + 1]);
            } else if i + 1 == j {
                assert(out@[i] == before[i]);
            } else if i == j {
                assert(out@[i + 1] == before[i]);
            } else {
                assert(out@[i] == before[i - 1] && out@[i + 1] == before[i]);
            }
        }
        proof {
            k = k + 1;
        }
    }
    assert(orig.subrange(0, k) == orig);
    out
}

/// Whether a queue's timing can be computed for `future_release` within
/// 64 bits.
pub fn timing_fits_exec(q: &QueueSettings, future_release: u64) -> (r: bool)
    ensures
        r == (timing_fits(*q, future_release) && q.notify@.len() <= u32::MAX + 1),
{
    let next: u64 = if q.notify.len() > 0 {
        q.notify[0]
    } else {
        DEFAULT_NOTIFY_SECS
    };
    if q.notify.len() as u64 > 4294967296u64 || next > u64::MAX - future_release {
        return false;
    }
    match q.expiry {
        QueueExpiry::Duration(t) => t <= u64::MAX - future_release,
        QueueExpiry::Count(_) => true,
    }
}

/// A recipient as stored in the queued message.
#[derive(Clone, Debug)]
pub struct QueuedRecipient {
    pub address: Vec<u8>,
    pub address_lcase: Vec<u8>,
    pub flags: u64,
    pub orcpt: Option<Vec<u8>>,
    pub timing: RecipientTiming,
    /// The virtual queue the recipient is assigned to.
    pub queue: Vec<u8>,
}

impl Addressed for QueuedRecipient {
    open spec fn spec_lcase(&self) -> Seq<u8> {
        self.address_lcase@
    }

    fn lcase(&self) -> (r: &[u8]) {
        self.address_lcase.as_slice()
    }
}

/// Whether `MAIL FROM` asked for the message to be returned at its deadline.
pub fn returns_at_deadline(mail_flags: u64) -> (r: bool)
    ensures
        r == (mail_flags & MAIL_BY_RETURN != 0),
{
    mail_flags & MAIL_BY_RETURN != 0
}

/// The stored form of recipient `a` assigned to queue `q`.
pub open spec fn spec_queued(
    a: RcptAddress,
    q: QueueSettings,
    future_release: u64,
    delivery_by: i64,
    by_return: bool,
) -> QueuedRecipient {
    QueuedRecipient {
        address: a.address,
        address_lcase: a.address_lcase,
        flags: spec_notify_flags(a.flags),
        orcpt: a.orcpt,
        timing: spec_timing(q, future_release, delivery_by, by_return),
        queue: q.name,
    }
}

/// Every queue's timing fits.
pub open spec fn all_fit(queues: Seq<QueueSettings>, future_release: u64) -> bool {
    forall|i: int|
        0 <= i < queues.len() ==> timing_fits(#[trigger] queues[i], future_release)
            && queues[i].notify@.len() <= u32::MAX + 1
}

/// Schedules each recipient, in the given order, on the queue resolved for
/// it (`queues[i]` for `rcpts[i]`).
pub fn schedule_recipients(
    rcpts: Vec<RcptAddress>,
    queues: Vec<QueueSettings>,
    future_release: u64,
    delivery_by: i64,
    by_return: bool,
) -> (r: Vec<QueuedRecipient>)
    requires
        rcpts@.len() == queues@.len(),
        all_fit(queues@, future_release),
    ensures
        r@.len() == rcpts@.len(),
        forall|i: int|
            0 <= i < r@.len() ==> #[trigger] r@[i] == spec_queued(
                rcpts@[i],
                queues@[i],
                future_release,
                delivery_by,
                by_return,
            ),
{
    let ghost orig_r = rcpts@;
    let ghost orig_q = queues@;
    let mut rest_r = rcpts;
    let mut rest_q = queues;
    let mut out: Vec<QueuedRecipient> = Vec::new();
    while rest_r.len() > 0
        invariant
            orig_r.len() == orig_q.len(),
            out@.len() + rest_r@.len() == orig_r.len(),
            rest_r@ == orig_r.subrange(out@.len() as int, orig_r.len() as int),
            rest_q@ == orig_q.subrange(out@.len() as int, orig_q.len() as int),
            all_fit(orig_q, future_release),
            forall|i: int|
                0 <= i < out@.len() ==> #[trigger] out@[i] == spec_queued(
                    orig_r[i],
                    orig_q[i],
                    future_release,
                    delivery_by,
                    by_return,
                ),
        decreases rest_r@.len(),
    {
        let ghost k = out@.len() as int;
        let a = rest_r.remove(0);
        let q = rest_q.remove(0);
        proof {
            assert(a == orig_r[k]);
            assert(q == orig_q[k]);
            assert(orig_r.subrange(k + 1, orig_r.len() as int) == orig_r.subrange(k, orig_r.len() as int).remove(0));
            assert(orig_q.subrange(k + 1, orig_q.len() as int) == orig_q.subrange(k, orig_q.len() as int).remove(0));
        }
        let timing = recipient_timing(&q, future_release, delivery_by, by_return);
        let flags = notify_flags(a.flags);
        let RcptAddress { address, address_lcase, flags: _, orcpt } = a;
        out.push(QueuedRecipient { address, address_lcase, flags, orcpt, timing, queue: q.name });
    }
    out
}

} // verus!
