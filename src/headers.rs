//! The block of headers that the server prepends to a message, kept in the
//! order in which trace, rewriter and signing headers must appear.
use crate::text::{
    append_bytes, append_dec, append_hex, append_prefix, append_str, dec_digits, hex_digits, lit,
};
use vstd::prelude::*;

verus! {

/// The sections of the prepended block, topmost first.
#[derive(Clone, Copy, Debug, PartialEq, Eq, Structural)]
pub enum Section {
    Received,
    AuthResults,
    ReceivedSpf,
    ArcSet,
    SpamFilter,
    Rewriter,
    ReturnPath,
    Date,
    MessageId,
    Signature,
}

impl Section {
    pub open spec fn spec_rank(&self) -> u8 {
        match *self {
            Section::Received => 0,
            Section::AuthResults => 1,
            Section::ReceivedSpf => 2,
            Section::ArcSet => 3,
            Section::SpamFilter => 4,
            Section::Rewriter => 5,
            Section::ReturnPath => 6,
            Section::Date => 7,
            Section::MessageId => 8,
            Section::Signature => 9,
        }
    }

    /// The position of the section in the block.
    #[verifier::when_used_as_spec(spec_rank)]
    pub fn rank(&self) -> (r: u8)
        ensures
            r == self.spec_rank(),
    {
        match self {
            Section::Received => 0,
            Section::AuthResults => 1,
            Section::ReceivedSpf => 2,
            Section::ArcSet => 3,
            Section::SpamFilter => 4,
            Section::Rewriter => 5,
            Section::ReturnPath => 6,
            Section::Date => 7,
            Section::MessageId => 8,
            Section::Signature => 9,
        }
    }
}

/// The bytes of a sequence of entries, one after the other.
pub open spec fn flatten(entries: Seq<(Section, Seq<u8>)>) -> Seq<u8>
    decreases entries.len(),
{
    if entries.len() == 0 {
        Seq::empty()
    } else {
        flatten(entries.drop_last()) + entries.last().1
    }
}

/// Entries appear section by section, never going back to an earlier one.
pub open spec fn in_order(entries: Seq<(Section, Seq<u8>)>) -> bool {
    forall|i: int, j: int|
        0 <= i < j < entries.len() ==> entries[i].0.spec_rank() <= entries[j].0.spec_rank()
}

/// The prepended header block.
pub struct HeaderBlock {
    bytes: Vec<u8>,
    next: u8,
    entries: Ghost<Seq<(Section, Seq<u8>)>>,
}

impl View for HeaderBlock {
    type V = Seq<u8>;

    closed spec fn view(&self) -> Seq<u8> {
        self.bytes@
    }
}

impl HeaderBlock {
    /// The entries written so far, each with its section.
    pub closed spec fn entries(&self) -> Seq<(Section, Seq<u8>)> {
        self.entries@
    }

    /// The lowest rank that the next entry may have.
    pub closed spec fn next_rank(&self) -> u8 {
        self.next
    }

    pub closed spec fn wf(&self) -> bool {
        &&& self.bytes@ == flatten(self.entries@)
        &&& in_order(self.entries@)
        &&& self.next <= 9
        &&& forall|i: int| 0 <= i < self.entries@.len() ==> (#[trigger] self.entries@[i]).0.spec_rank() <= self.next
        &&& (self.entries@.len() > 0 ==> self.entries@.last().0.spec_rank() == self.next)
    }

    /// A well-formed block is its entries laid end to end, in section order.
    pub proof fn lemma_wf(&self)
        requires
            self.wf(),
        ensures
            self@ == flatten(self.entries()),
            in_order(self.entries()),
    {
    }

    /// An empty block.
    pub fn new() -> (r: HeaderBlock)
        ensures
            r.wf(),
            r@ == Seq::<u8>::empty(),
            r.entries() == Seq::<(Section, Seq<u8>)>::empty(),
            r.next_rank() == 0,
    {
        HeaderBlock { bytes: Vec::new(), next: 0, entries: Ghost(Seq::empty()) }
    }

    /// The length in bytes.
    pub fn len(&self) -> (r: usize)
        ensures
            r == self@.len(),
    {
        self.bytes.len()
    }

    /// The bytes of the block.
    pub fn as_slice(&self) -> (r: &[u8])
        ensures
            r@ == self@,
    {
        self.bytes.as_slice()
    }

    /// Whether an entry of `section` may be written now.
    pub fn accepts(&self, section: Section) -> (r: bool)
        ensures
            r == (section.spec_rank() >= self.next_rank()),
    {
        section.rank() >= self.next
    }

    /// Appends an entry of `section` holding `text`.
    fn push_entry(&mut self, section: Section, text: &[u8])
        requires
            old(self).wf(),
            section.spec_rank() >= old(self).next_rank(),
        ensures
            final(self).wf(),
            final(self)@ == old(self)@ + text@,
            final(self).entries() == old(self).entries().push((section, text@)),
            final(self).next_rank() == section.spec_rank(),
    {
        let ghost e = self.entries@;
        append_bytes(&mut self.bytes, text);
        self.entries = Ghost(e.push((section, text@)));
        self.next = section.rank();
        proof {
            let n = self.entries@;
            assert(n.drop_last() == e);
        }
    }

    /// Appends the `Authentication-Results` header, as written by the verifier.
    pub fn add_auth_results(&mut self, text: &[u8])
        requires
            old(self).wf(),
            Section::AuthResults.spec_rank() >= old(self).next_rank(),
        ensures
            final(self).wf(),
            final(self)@ == old(self)@ + text@,
            final(self).entries() == old(self).entries().push((Section::AuthResults, text@)),
            final(self).next_rank() == Section::AuthResults.spec_rank(),
    {
        self.push_entry(Section::AuthResults, text);
    }

    /// Appends the `Received-SPF` header.
    pub fn add_received_spf(&mut self, text: &[u8])
        requires
            old(self).wf(),
            Section::ReceivedSpf.spec_rank() >= old(self).next_rank(),
        ensures
            final(self).wf(),
            final(self)@ == old(self)@ + text@,
            final(self).entries() == old(self).entries().push((Section::ReceivedSpf, text@)),
            final(self).next_rank() == Section::ReceivedSpf.spec_rank(),
    {
        self.push_entry(Section::ReceivedSpf, text);
    }

    /// Appends the ARC set that sealed the message.
    pub fn add_arc_set(&mut self, text: &[u8])
        requires
            old(self).wf(),
            Section::ArcSet.spec_rank() >= old(self).next_rank(),
        ensures
            final(self).wf(),
            final(self)@ == old(self)@ + text@,
            final(self).entries() == old(self).entries().push((Section::ArcSet, text@)),
            final(self).next_rank() == Section::ArcSet.spec_rank(),
    {
        self.push_entry(Section::ArcSet, text);
    }

    /// Appends the headers that the spam classifier asked for.
    pub fn add_spam_headers(&mut self, text: &[u8])
        requires
            old(self).wf(),
            Section::SpamFilter.spec_rank() >= old(self).next_rank(),
        ensures
            final(self).wf(),
            final(self)@ == old(self)@ + text@,
            final(self).entries() == old(self).entries().push((Section::SpamFilter, text@)),
            final(self).next_rank() == Section::SpamFilter.spec_rank(),
    {
        self.push_entry(Section::SpamFilter, text);
    }

    /// Appends a DKIM signature header.
    pub fn add_signature(&mut self, text: &[u8])
        requires
            old(self).wf(),
            Section::Signature.spec_rank() >= old(self).next_rank(),
        ensures
            final(self).wf(),
            final(self)@ == old(self)@ + text@,
            final(self).entries() == old(self).entries().push((Section::Signature, text@)),
            final(self).next_rank() == Section::Signature.spec_rank(),
    {
        self.push_entry(Section::Signature, text);
    }

    /// Appends the `Received` header of the session, naming queue id `id`.
    pub fn add_received(&mut self, info: &ReceivedInfo, id: u64, date: &[u8])
        requires
            old(self).wf(),
            Section::Received.spec_rank() >= old(self).next_rank(),
        ensures
            final(self).wf(),
            final(self)@ == old(self)@ + received_text(*info, id, date@),
            final(self).entries() == old(self).entries().push((Section::Received, received_text(*info, id, date@))),
            final(self).next_rank() == Section::Received.spec_rank(),
    {
        let mut text: Vec<u8> = Vec::new();
        write_received(&mut text, info, id, date);
        assert(text@ =~= received_text(*info, id, date@));
        self.push_entry(Section::Received, text.as_slice());
    }

    /// Appends a header that a milter, hook or script added.
    pub fn add_header(&mut self, name: &[u8], value: &[u8])
        requires
            old(self).wf(),
            Section::Rewriter.spec_rank() >= old(self).next_rank(),
        ensures
            final(self).wf(),
            final(self)@ == old(self)@ + added_header_text(name@, value@),
            final(self).entries() == old(self).entries().push((Section::Rewriter, added_header_text(name@, value@))),
            final(self).next_rank() == Section::Rewriter.spec_rank(),
    {
        let mut text: Vec<u8> = Vec::new();
        append_bytes(&mut text, name);
        append_str(&mut text, ": ");
        append_bytes(&mut text, value);
        if !(value.len() > 0 && value[value.len() - 1] == 10u8) {
            append_str(&mut text, "\r\n");
        }
        assert(text@ =~= added_header_text(name@, value@));
        self.push_entry(Section::Rewriter, text.as_slice());
    }

    /// Appends `Return-Path` for the envelope sender `addr`.
    pub fn add_return_path(&mut self, addr: &[u8])
        requires
            old(self).wf(),
            Section::ReturnPath.spec_rank() >= old(self).next_rank(),
        ensures
            final(self).wf(),
            final(self)@ == old(self)@ + return_path_text(addr@),
            final(self).entries() == old(self).entries().push((Section::ReturnPath, return_path_text(addr@))),
            final(self).next_rank() == Section::ReturnPath.spec_rank(),
    {
        let mut text: Vec<u8> = Vec::new();
        append_str(&mut text, "Return-Path: <");
        append_bytes(&mut text, addr);
        append_str(&mut text, ">\r\n");
        assert(text@ =~= return_path_text(addr@));
        self.push_entry(Section::ReturnPath, text.as_slice());
    }

    /// Appends a `Date` header with the RFC 822 date `date`.
    pub fn add_date(&mut self, date: &[u8])
        requires
            old(self).wf(),
            Section::Date.spec_rank() >= old(self).next_rank(),
        ensures
            final(self).wf(),
            final(self)@ == old(self)@ + date_text(date@),
            final(self).entries() == old(self).entries().push((Section::Date, date_text(date@))),
            final(self).next_rank() == Section::Date.spec_rank(),
    {
        let mut text: Vec<u8> = Vec::new();
        append_str(&mut text, "Date: ");
        append_bytes(&mut text, date);
        append_str(&mut text, "\r\n");
        assert(text@ =~= date_text(date@));
        self.push_entry(Section::Date, text.as_slice());
    }

    /// Appends a `Message-ID` header with the identifier `id` (angle brackets included).
    pub fn add_message_id(&mut self, id: &[u8])
        requires
            old(self).wf(),
            Section::MessageId.spec_rank() >= old(self).next_rank(),
        ensures
            final(self).wf(),
            final(self)@ == old(self)@ + message_id_text(id@),
            final(self).entries() == old(self).entries().push((Section::MessageId, message_id_text(id@))),
            final(self).next_rank() == Section::MessageId.spec_rank(),
    {
        let mut text: Vec<u8> = Vec::new();
        append_str(&mut text, "Message-ID: ");
        append_bytes(&mut text, id);
        append_str(&mut text, "\r\n");
        assert(text@ =~= message_id_text(id@));
        self.push_entry(Section::MessageId, text.as_slice());
    }
}

/// The TLS parameters of the session.
#[derive(Clone, Debug)]
pub struct TlsInfo {
    pub version: Vec<u8>,
    pub cipher: Vec<u8>,
}

/// The autonomous system the client's address belongs to.
#[derive(Clone, Debug)]
pub struct AsnInfo {
    pub id: u32,
    pub name: Option<Vec<u8>>,
}

/// What a `Received` header records of the session.
#[derive(Clone, Debug)]
pub struct ReceivedInfo {
    /// The EHLO domain the client gave.
    pub helo: Vec<u8>,
    /// The first name that reverse DNS gave for the client, if any.
    pub ptr: Option<Vec<u8>>,
    /// The client's address, in text.
    pub remote_ip: Vec<u8>,
    pub asn: Option<AsnInfo>,
    pub country: Option<Vec<u8>>,
    pub tls: Option<TlsInfo>,
    pub authenticated: bool,
    /// This server's host name.
    pub hostname: Vec<u8>,
}

/// A host name without its final dot.
pub open spec fn strip_dot(s: Seq<u8>) -> Seq<u8> {
    if s.len() > 0 && s.last() == 46u8 {
        s.drop_last()
    } else {
        s
    }
}

pub open spec fn ptr_text(ptr: Option<Vec<u8>>) -> Seq<u8> {
    match ptr {
        Some(p) => strip_dot(p@),
        None => lit("unknown"),
    }
}

pub open spec fn geo_text(asn: Option<AsnInfo>, country: Option<Vec<u8>>) -> Seq<u8> {
    if asn is None && country is None {
        Seq::empty()
    } else {
        let a = match asn {
            Some(a) => lit("AS") + dec_digits(a.id as nat) + match a.name {
                Some(n) => lit(" ") + n@,
                None => Seq::empty(),
            },
            None => Seq::empty(),
        };
        let c = match country {
            Some(c) => if asn is Some {
                lit(", ") + c@
            } else {
                c@
            },
            None => Seq::empty(),
        };
        lit(" (") + a + c + lit(")")
    }
}

pub open spec fn tls_text(tls: Option<TlsInfo>) -> Seq<u8> {
    match tls {
        Some(t) => lit("(using ") + t.version@ + lit(" with cipher ") + t.cipher@ + lit(")\r\n\t"),
        None => Seq::empty(),
    }
}

/// The protocol keyword: ESMTP, with S for TLS and A for an authenticated
/// client.
pub open spec fn proto_text(tls: bool, authenticated: bool) -> Seq<u8> {
    if tls && !authenticated {
        lit("ESMTPS")
    } else if tls {
        lit("ESMTPSA")
    } else if !authenticated {
        lit("ESMTP")
    } else {
        lit("ESMTPA")
    }
}

/// The first line of a `Received` header: who connected, from where.
pub open spec fn received_from_text(info: ReceivedInfo) -> Seq<u8> {
    lit("Received: from ") + info.helo@ + lit(" (") + ptr_text(info.ptr) + lit(" [")
        + info.remote_ip@ + lit("]") + geo_text(info.asn, info.country) + lit(")\r\n\t")
}

/// The rest of a `Received` header: TLS, receiving host, protocol, id, date.
pub open spec fn received_by_text(info: ReceivedInfo, id: u64, date: Seq<u8>) -> Seq<u8> {
    tls_text(info.tls) + lit("by ") + info.hostname@ + lit(" (Stalwart SMTP) with ")
        + proto_text(info.tls is Some, info.authenticated) + lit(" id ") + hex_digits(
        id as nat,
        true,
    ) + lit(";\r\n\t") + date + lit("\r\n")
}

/// The `Received` header for a session, a queue id and a date.
pub open spec fn received_text(info: ReceivedInfo, id: u64, date: Seq<u8>) -> Seq<u8> {
    received_from_text(info) + received_by_text(info, id, date)
}

/// A header added by a rewriter: the value is kept verbatim and ended with
/// CR LF unless it already ends with LF.
pub open spec fn added_header_text(name: Seq<u8>, value: Seq<u8>) -> Seq<u8> {
    if value.len() > 0 && value.last() == 10u8 {
        name + lit(": ") + value
    } else {
        name + lit(": ") + value + lit("\r\n")
    }
}

pub open spec fn return_path_text(addr: Seq<u8>) -> Seq<u8> {
    lit("Return-Path: <") + addr + lit(">\r\n")
}

pub open spec fn date_text(date: Seq<u8>) -> Seq<u8> {
    lit("Date: ") + date + lit("\r\n")
}

pub open spec fn message_id_text(id: Seq<u8>) -> Seq<u8> {
    lit("Message-ID: ") + id + lit("\r\n")
}

fn write_ptr(out: &mut Vec<u8>, ptr: &Option<Vec<u8>>)
    ensures
        final(out)@ == old(out)@ + ptr_text(*ptr),
{
    match ptr {
        Some(p) => {
            if p.len() > 0 && p[p.len() - 1] == 46u8 {
                append_prefix(out, p.as_slice(), p.len() - 1);
                assert(p@.subrange(0, p@.len() - 1) == p@.drop_last());
            } else {
                append_bytes(out, p.as_slice());
            }
        },
        None => append_str(out, "unknown"),
    }
}

fn write_asn(out: &mut Vec<u8>, asn: &AsnInfo)
    ensures
        final(out)@ == old(out)@ + (lit("AS") + dec_digits(asn.id as nat) + match asn.name {
            Some(n) => lit(" ") + n@,
            None => Seq::empty(),
        }),
{
    let ghost start = out@;
    append_str(out, "AS");
    append_dec(out, asn.id as u64);
    if let Some(name) = &asn.name {
        append_str(out, " ");
        append_bytes(out, name.as_slice());
    }
    assert(out@ =~= start + (lit("AS") + dec_digits(asn.id as nat) + match asn.name {
        Some(n) => lit(" ") + n@,
        None => Seq::empty(),
    }));
}

fn write_geo(out: &mut Vec<u8>, asn: &Option<AsnInfo>, country: &Option<Vec<u8>>)
    ensures
        final(out)@ == old(out)@ + geo_text(*asn, *country),
{
    let ghost start = out@;
    if asn.is_some() || country.is_some() {
        append_str(out, " (");
        if let Some(a) = asn {
            write_asn(out, a);
        }
        if let Some(c) = country {
            if asn.is_some() {
                append_str(out, ", ");
            }
            append_bytes(out, c.as_slice());
        }
        append_str(out, ")");
        assert(out@ =~= start + geo_text(*asn, *country));
    } else {
        assert(out@ =~= start + geo_text(*asn, *country));
    }
}

fn write_tls(out: &mut Vec<u8>, tls: &Option<TlsInfo>)
    ensures
        final(out)@ == old(out)@ + tls_text(*tls),
{
    let ghost start = out@;
    if let Some(t) = tls {
        append_str(out, "(using ");
        append_bytes(out, t.version.as_slice());
        append_str(out, " with cipher ");
        append_bytes(out, t.cipher.as_slice());
        append_str(out, ")\r\n\t");
    }
    assert(out@ =~= start + tls_text(*tls));
}

fn write_proto(out: &mut Vec<u8>, tls: bool, authenticated: bool)
    ensures
        final(out)@ == old(out)@ + proto_text(tls, authenticated),
{
    if tls && !authenticated {
        append_str(out, "ESMTPS");
    } else if tls {
        append_str(out, "ESMTPSA");
    } else if !authenticated {
        append_str(out, "ESMTP");
    } else {
        append_str(out, "ESMTPA");
    }
}

fn write_received_from(out: &mut Vec<u8>, info: &ReceivedInfo)
    ensures
        final(out)@ == old(out)@ + received_from_text(*info),
{
    let ghost start = out@;
    append_str(out, "Received: from ");
    append_bytes(out, info.helo.as_slice());
    append_str(out, " (");
    write_ptr(out, &info.ptr);
    append_str(out, " [");
    append_bytes(out, info.remote_ip.as_slice());
    append_str(out, "]");
    write_geo(out, &info.asn, &info.country);
    append_str(out, ")\r\n\t");
    assert(out@ =~= start + received_from_text(*info));
}

fn write_received_by(out: &mut Vec<u8>, info: &ReceivedInfo, id: u64, date: &[u8])
    ensures
        final(out)@ == old(out)@ + received_by_text(*info, id, date@),
{
    let ghost start = out@;
    write_tls(out, &info.tls);
    append_str(out, "by ");
    append_bytes(out, info.hostname.as_slice());
    append_str(out, " (Stalwart SMTP) with ");
    write_proto(out, info.tls.is_some(), info.authenticated);
    append_str(out, " id ");
    append_hex(out, id, true);
    append_str(out, ";\r\n\t");
    append_bytes(out, date);
    append_str(out, "\r\n");
    assert(out@ =~= start + received_by_text(*info, id, date@));
}

/// Writes the `Received` header of a session.
pub fn write_received(out: &mut Vec<u8>, info: &ReceivedInfo, id: u64, date: &[u8])
    ensures
        final(out)@ == old(out)@ + received_text(*info, id, date@),
{
    let ghost start = out@;
    write_received_from(out, info);
    write_received_by(out, info, id, date);
    assert(out@ =~= start + received_text(*info, id, date@));
}

} // verus!
