//! The SMTP replies that end the DATA phase.
use crate::text::{append_bytes, append_hex, append_str, hex_digits, lit};
use vstd::prelude::*;
use vstd::string::is_ascii;

verus! {

/// A final reply to the DATA command.
#[derive(Clone, Debug)]
pub enum Reply {
    /// `250`: the message was queued under the given id.
    QueuedWithId(u64),
    /// `250`: the message was accepted but absorbed (a report, a discard).
    QueuedForDelivery,
    /// `450`: too many `Received` headers.
    LoopDetected,
    /// `451`: strict DKIM found no passing signature, one result transient.
    DkimTempFail,
    /// `550`: strict DKIM found no passing signature.
    DkimPermFail,
    /// `451`: strict ARC failed with a transient error.
    ArcTempFail,
    /// `550`: strict ARC failed.
    ArcPermFail,
    /// `451`: DMARC reject policy with a transient component result.
    DmarcTempFail,
    /// `550`: DMARC reject policy.
    DmarcPermFail,
    /// `550`: the spam classifier rejected the message.
    SpamRejected,
    /// `550`: the message could not be parsed.
    ParseFailed,
    /// `452`: the queue quota would be exceeded.
    MailSystemFull,
    /// `451`: the message could not be persisted.
    UnableToAccept,
    /// `503`: DATA before any accepted recipient.
    RcptMissing,
    /// `452`: the session reached its message limit.
    TooManyMessages,
    /// A reply supplied verbatim by a milter, hook or script.
    Custom(Vec<u8>),
}

/// The fixed text of each reply other than `QueuedWithId` and `Custom`.
pub open spec fn fixed_text(r: Reply) -> Seq<u8> {
    match r {
        Reply::QueuedForDelivery => lit("250 2.0.0 Message queued for delivery.\r\n"),
        Reply::LoopDetected => lit("450 4.4.6 Too many Received headers. Possible loop detected.\r\n"),
        Reply::DkimTempFail => lit("451 4.7.20 No passing DKIM signatures found.\r\n"),
        Reply::DkimPermFail => lit("550 5.7.20 No passing DKIM signatures found.\r\n"),
        Reply::ArcTempFail => lit("451 4.7.29 ARC validation failed.\r\n"),
        Reply::ArcPermFail => lit("550 5.7.29 ARC validation failed.\r\n"),
        Reply::DmarcTempFail => lit("451 4.7.1 Email temporarily rejected per DMARC policy.\r\n"),
        Reply::DmarcPermFail => lit("550 5.7.1 Email rejected per DMARC policy.\r\n"),
        Reply::SpamRejected => lit("550 5.7.1 Message rejected due to excessive spam score.\r\n"),
        Reply::ParseFailed => lit("550 5.7.7 Failed to parse message.\r\n"),
        Reply::MailSystemFull => lit("452 4.3.1 Mail system full, try again later.\r\n"),
        Reply::UnableToAccept => lit("451 4.3.5 Unable to accept message at this time.\r\n"),
        Reply::RcptMissing => lit("503 5.5.1 RCPT is required first.\r\n"),
        Reply::TooManyMessages => lit("452 4.4.5 Maximum number of messages per session exceeded.\r\n"),
        _ => Seq::empty(),
    }
}

/// The bytes sent on the wire for a reply.
pub open spec fn reply_bytes(r: Reply) -> Seq<u8> {
    match r {
        Reply::QueuedWithId(id) => lit("250 2.0.0 Message queued with id ") + hex_digits(
            id as nat,
            false,
        ) + lit(".\r\n"),
        Reply::Custom(b) => b@,
        _ => fixed_text(r),
    }
}

/// A reply whose text this library fixes (every reply but a rewriter's).
pub open spec fn is_standard(r: Reply) -> bool {
    !(r is Custom)
}

/// A small number naming each standard reply form.
pub open spec fn reply_form(r: Reply) -> int {
    match r {
        Reply::QueuedWithId(_) => 0,
        Reply::QueuedForDelivery => 1,
        Reply::LoopDetected => 2,
        Reply::DkimTempFail => 3,
        Reply::DkimPermFail => 4,
        Reply::ArcTempFail => 5,
        Reply::ArcPermFail => 6,
        Reply::DmarcTempFail => 7,
        Reply::DmarcPermFail => 8,
        Reply::SpamRejected => 9,
        Reply::ParseFailed => 10,
        Reply::MailSystemFull => 11,
        Reply::UnableToAccept => 12,
        Reply::RcptMissing => 13,
        Reply::TooManyMessages => 14,
        Reply::Custom(_) => 15,
    }
}

/// The transient (4xx) replies.
pub open spec fn spec_is_temporary(r: Reply) -> bool {
    r is LoopDetected || r is DkimTempFail || r is ArcTempFail || r is DmarcTempFail
        || r is MailSystemFull || r is UnableToAccept || r is TooManyMessages
}

impl Reply {
    /// The bytes of this reply.
    pub fn to_bytes(&self) -> (r: Vec<u8>)
        ensures
            r@ == reply_bytes(*self),
    {
        let mut out: Vec<u8> = Vec::new();
        match self {
            Reply::QueuedWithId(id) => {
                append_str(&mut out, "250 2.0.0 Message queued with id ");
                append_hex(&mut out, *id, false);
                append_str(&mut out, ".\r\n");
            },
            Reply::QueuedForDelivery => append_str(&mut out, "250 2.0.0 Message queued for delivery.\r\n"),
            Reply::LoopDetected => append_str(
                &mut out,
                "450 4.4.6 Too many Received headers. Possible loop detected.\r\n",
            ),
            Reply::DkimTempFail => append_str(&mut out, "451 4.7.20 No passing DKIM signatures found.\r\n"),
            Reply::DkimPermFail => append_str(&mut out, "550 5.7.20 No passing DKIM signatures found.\r\n"),
            Reply::ArcTempFail => append_str(&mut out, "451 4.7.29 ARC validation failed.\r\n"),
            Reply::ArcPermFail => append_str(&mut out, "550 5.7.29 ARC validation failed.\r\n"),
            Reply::DmarcTempFail => append_str(
                &mut out,
                "451 4.7.1 Email temporarily rejected per DMARC policy.\r\n",
            ),
            Reply::DmarcPermFail => append_str(&mut out, "550 5.7.1 Email rejected per DMARC policy.\r\n"),
            Reply::SpamRejected => append_str(
                &mut out,
                "550 5.7.1 Message rejected due to excessive spam score.\r\n",
            ),
            Reply::ParseFailed => append_str(&mut out, "550 5.7.7 Failed to parse message.\r\n"),
            Reply::MailSystemFull => append_str(&mut out, "452 4.3.1 Mail system full, try again later.\r\n"),
            Reply::UnableToAccept => append_str(
                &mut out,
                "451 4.3.5 Unable to accept message at this time.\r\n",
            ),
            Reply::RcptMissing => append_str(&mut out, "503 5.5.1 RCPT is required first.\r\n"),
            Reply::TooManyMessages => append_str(
                &mut out,
                "452 4.4.5 Maximum number of messages per session exceeded.\r\n",
            ),
            Reply::Custom(b) => append_bytes(&mut out, b.as_slice()),
        }
        out
    }

    /// Whether the reply is a transient (4xx) one.
    pub fn is_temporary(&self) -> (r: bool)
        ensures
            r == spec_is_temporary(*self),
    {
        match self {
            Reply::LoopDetected | Reply::DkimTempFail | Reply::ArcTempFail | Reply::DmarcTempFail
            | Reply::MailSystemFull | Reply::UnableToAccept | Reply::TooManyMessages => true,
            _ => false,
        }
    }
}

/// The distinguishing bytes of each reply form, by `reply_form`.
pub open spec fn reply_key_of_form(k: int) -> Seq<u8> {
    if k == 0 {
        seq![50u8, 48u8, 48u8, 48u8, 32u8, 77u8, 119u8]
    } else if k == 1 {
        seq![50u8, 48u8, 48u8, 48u8, 32u8, 77u8, 102u8]
    } else if k == 2 {
        seq![52u8, 48u8, 52u8, 54u8, 32u8, 84u8, 101u8]
    } else if k == 3 {
        seq![52u8, 49u8, 55u8, 50u8, 48u8, 32u8, 77u8]
    } else if k == 4 {
        seq![53u8, 48u8, 55u8, 50u8, 48u8, 32u8, 77u8]
    } else if k == 5 {
        seq![52u8, 49u8, 55u8, 50u8, 57u8, 32u8, 32u8]
    } else if k == 6 {
        seq![53u8, 48u8, 55u8, 50u8, 57u8, 32u8, 32u8]
    } else if k == 7 {
        seq![52u8, 49u8, 55u8, 49u8, 32u8, 69u8, 108u8]
    } else if k == 8 {
        seq![53u8, 48u8, 55u8, 49u8, 32u8, 69u8, 112u8]
    } else if k == 9 {
        seq![53u8, 48u8, 55u8, 49u8, 32u8, 77u8, 100u8]
    } else if k == 10 {
        seq![53u8, 48u8, 55u8, 55u8, 32u8, 70u8, 32u8]
    } else if k == 11 {
        seq![52u8, 50u8, 51u8, 49u8, 32u8, 77u8, 108u8]
    } else if k == 12 {
        seq![52u8, 49u8, 51u8, 53u8, 32u8, 85u8, 116u8]
    } else if k == 13 {
        seq![53u8, 51u8, 53u8, 49u8, 32u8, 82u8, 100u8]
    } else if k == 14 {
        seq![52u8, 50u8, 52u8, 53u8, 32u8, 77u8, 111u8]
    } else {
        Seq::empty()
    }
}

/// The bytes of a reply at the positions that tell the forms apart.
pub open spec fn reply_key(b: Seq<u8>) -> Seq<u8> {
    seq![b[0], b[2], b[6], b[8], b[9], b[10], b[25]]
}

proof fn lemma_fixed_text_shape(r: Reply)
    requires
        is_standard(r),
        !(r is QueuedWithId),
    ensures
        fixed_text(r).len() >= 26,
        fixed_text(r)[fixed_text(r).len() - 2] == 13u8,
        fixed_text(r)[fixed_text(r).len() - 1] == 10u8,
        reply_key(fixed_text(r)) == reply_key_of_form(reply_form(r)),
{
    match r {
        Reply::QueuedForDelivery => {
            reveal_strlit("250 2.0.0 Message queued for delivery.\r\n");
            assert(is_ascii("250 2.0.0 Message queued for delivery.\r\n"));
        },
        Reply::LoopDetected => {
            reveal_strlit("450 4.4.6 Too many Received headers. Possible loop detected.\r\n");
            assert(is_ascii("450 4.4.6 Too many Received headers. Possible loop detected.\r\n"));
        },
        Reply::DkimTempFail => {
            reveal_strlit("451 4.7.20 No passing DKIM signatures found.\r\n");
            assert(is_ascii("451 4.7.20 No passing DKIM signatures found.\r\n"));
        },
        Reply::DkimPermFail => {
            reveal_strlit("550 5.7.20 No passing DKIM signatures found.\r\n");
            assert(is_ascii("550 5.7.20 No passing DKIM signatures found.\r\n"));
        },
        Reply::ArcTempFail => {
            reveal_strlit("451 4.7.29 ARC validation failed.\r\n");
            assert(is_ascii("451 4.7.29 ARC validation failed.\r\n"));
        },
        Reply::ArcPermFail => {
            reveal_strlit("550 5.7.29 ARC validation failed.\r\n");
            assert(is_ascii("550 5.7.29 ARC validation failed.\r\n"));
        },
        Reply::DmarcTempFail => {
            reveal_strlit("451 4.7.1 Email temporarily rejected per DMARC policy.\r\n");
            assert(is_ascii("451 4.7.1 Email temporarily rejected per DMARC policy.\r\n"));
        },
        Reply::DmarcPermFail => {
            reveal_strlit("550 5.7.1 Email rejected per DMARC policy.\r\n");
            assert(is_ascii("550 5.7.1 Email rejected per DMARC policy.\r\n"));
        },
        Reply::SpamRejected => {
            reveal_strlit("550 5.7.1 Message rejected due to excessive spam score.\r\n");
            assert(is_ascii("550 5.7.1 Message rejected due to excessive spam score.\r\n"));
        },
        Reply::ParseFailed => {
            reveal_strlit("550 5.7.7 Failed to parse message.\r\n");
            assert(is_ascii("550 5.7.7 Failed to parse message.\r\n"));
        },
        Reply::MailSystemFull => {
            reveal_strlit("452 4.3.1 Mail system full, try again later.\r\n");
            assert(is_ascii("452 4.3.1 Mail system full, try again later.\r\n"));
        },
        Reply::UnableToAccept => {
            reveal_strlit("451 4.3.5 Unable to accept message at this time.\r\n");
            assert(is_ascii("451 4.3.5 Unable to accept message at this time.\r\n"));
        },
        Reply::RcptMissing => {
            reveal_strlit("503 5.5.1 RCPT is required first.\r\n");
            assert(is_ascii("503 5.5.1 RCPT is required first.\r\n"));
        },
        Reply::TooManyMessages => {
            reveal_strlit("452 4.4.5 Maximum number of messages per session exceeded.\r\n");
            assert(is_ascii("452 4.4.5 Maximum number of messages per session exceeded.\r\n"));
        },
        _ => {},
    }
}

proof fn lemma_reply_shape(r: Reply)
    requires
        is_standard(r),
    ensures
        reply_bytes(r).len() >= 26,
        reply_bytes(r)[reply_bytes(r).len() - 2] == 13u8,
        reply_bytes(r)[reply_bytes(r).len() - 1] == 10u8,
        reply_key(reply_bytes(r)) == reply_key_of_form(reply_form(r)),
{
    if let Reply::QueuedWithId(id) = r {
        let p = lit("250 2.0.0 Message queued with id ");
        let h = hex_digits(id as nat, false);
        let s = lit(".\r\n");
        reveal_strlit("250 2.0.0 Message queued with id ");
        reveal_strlit(".\r\n");
        assert(is_ascii("250 2.0.0 Message queued with id "));
        assert(is_ascii(".\r\n"));
        let b = p + h + s;
        assert(p.len() == 33);
        assert(s.len() == 3);
        assert(b[b.len() - 2] == s[1]);
        assert(b[b.len() - 1] == s[2]);
        assert(reply_key(b) == reply_key(p));
    } else {
        lemma_fixed_text_shape(r);
    }
}

/// Every reply that this library words itself ends with CR LF and is told
/// apart from every other such reply by its bytes: equal bytes mean the
/// same form.
pub proof fn lemma_reply_is_canonical(r1: Reply, r2: Reply)
    requires
        is_standard(r1),
        is_standard(r2),
    ensures
        reply_bytes(r1).len() >= 2,
        reply_bytes(r1).subrange(reply_bytes(r1).len() - 2, reply_bytes(r1).len() as int)
            == seq![13u8, 10u8],
        reply_bytes(r1) == reply_bytes(r2) ==> reply_form(r1) == reply_form(r2),
{
    lemma_reply_shape(r1);
    lemma_reply_shape(r2);
    let b = reply_bytes(r1);
    assert(b.subrange(b.len() - 2, b.len() as int) =~= seq![13u8, 10u8]);
    if b == reply_bytes(r2) {
        assert(reply_key_of_form(reply_form(r1)) == reply_key_of_form(reply_form(r2)));
        if reply_form(r1) != reply_form(r2) {
            let k1 = reply_key_of_form(reply_form(r1));
            let k2 = reply_key_of_form(reply_form(r2));
            assert(k1[0] != k2[0] || k1[1] != k2[1] || k1[2] != k2[2] || k1[3] != k2[3]
                || k1[4] != k2[4] || k1[5] != k2[5] || k1[6] != k2[6]);
        }
    }
}

/// A short-circuit reply carries nothing of the run that produced it: two
/// replies of the same form have the same bytes. Only the success reply
/// names something of the run (the queue id).
pub proof fn lemma_short_circuit_replies_are_fixed(r1: Reply, r2: Reply)
    requires
        is_standard(r1),
        is_standard(r2),
        !(r1 is QueuedWithId),
        reply_form(r1) == reply_form(r2),
    ensures
        reply_bytes(r1) == reply_bytes(r2),
{
}

} // verus!
