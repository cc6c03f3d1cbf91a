use smtp_inbound::auth::{AuthResult, DkimOutcome, DmarcOutcome, DmarcPolicy, VerifyStrategy};
use smtp_inbound::headers::{AsnInfo, ReceivedInfo, TlsInfo};
use smtp_inbound::message::inspect_message;
use smtp_inbound::pipeline::{Pipeline, PipelineConfig, Stage, DEFAULT_MAX_RECEIVED};
use smtp_inbound::reply::Reply;
use smtp_inbound::rewrite::{Modification, ScriptResult, SpamAction};

const MESSAGE: &[u8] = b"From: john@test.org\r\nTo: bill@foobar.org\r\nSubject: hello\r\n\r\nTest message.\r\n";

fn config() -> PipelineConfig {
    PipelineConfig {
        max_received: DEFAULT_MAX_RECEIVED,
        dkim: VerifyStrategy::Relaxed,
        arc: VerifyStrategy::Relaxed,
        dmarc: VerifyStrategy::Relaxed,
        arc_sealer: false,
        spf_mail_from: true,
        is_report: false,
        forward_reports: true,
        add_received: true,
        add_auth_results: true,
        add_received_spf: true,
        add_return_path: true,
        add_date: true,
        add_message_id: true,
        spam_filter: false,
    }
}

fn info() -> ReceivedInfo {
    ReceivedInfo {
        helo: b"mx.test.org".to_vec(),
        ptr: Some(b"mx.test.org.".to_vec()),
        remote_ip: b"10.0.0.1".to_vec(),
        asn: None,
        country: None,
        tls: None,
        authenticated: false,
        hostname: b"mx.foobar.org".to_vec(),
    }
}

fn dmarc_none() -> DmarcOutcome {
    DmarcOutcome {
        spf_result: AuthResult::NoResult,
        dkim_result: AuthResult::NoResult,
        policy: DmarcPolicy::NoAction,
    }
}

fn contains(hay: &[u8], needle: &[u8]) -> bool {
    hay.windows(needle.len()).any(|w| w == needle)
}

/// Runs every stage after the start with neutral outcomes; returns the
/// pipeline and the final reply.
fn run(mut p: Pipeline, id: u64) -> (Pipeline, Reply) {
    assert!(p.dkim(&vec![]).is_none());
    assert!(p.arc(AuthResult::NoResult, false).is_none());
    assert!(p.dmarc(dmarc_none()).is_none());
    p.trace(
        id,
        &info(),
        b"Tue, 1 Jul 2025 10:00:00 +0000",
        b"Authentication-Results: mx.foobar.org; dkim=none\r\n",
        b"Received-SPF: pass\r\n",
        None,
    );
    assert!(p.spam(SpamAction::Allow(vec![])).is_none());
    assert!(p.milter(Ok(vec![])).is_none());
    assert!(p.hook(Ok(vec![])).unwrap().is_empty());
    assert!(p.script(None).unwrap().is_empty());
    p.complete(b"john@test.org", b"Tue, 1 Jul 2025 10:00:00 +0000", b"<abc@mx.foobar.org>");
    let reply = p.finish(true, true);
    (p, reply)
}

fn received(n: usize) -> Vec<u8> {
    let mut m = Vec::new();
    for i in 0..n {
        m.extend_from_slice(format!("Received: from host{i}.test.org by mx.test.org; Tue, 1 Jul 2025 10:00:00 +0000\r\n").as_bytes());
    }
    m.extend_from_slice(MESSAGE);
    m
}

#[test]
fn too_many_received_headers_is_a_loop() {
    let mut c = config();
    c.max_received = 50;
    let r = Pipeline::start(received(51), c).err().unwrap();
    assert_eq!(
        r.to_bytes(),
        b"450 4.4.6 Too many Received headers. Possible loop detected.\r\n".to_vec()
    );
}

#[test]
fn exactly_the_maximum_of_received_headers_passes() {
    let mut c = config();
    c.max_received = 50;
    let p = Pipeline::start(received(50), c).ok().unwrap();
    assert_eq!(p.message_facts().received_count, 50);
}

#[test]
fn malformed_headers_fail_to_parse() {
    let r = Pipeline::start(b"this line has no colon\r\nnor this one\r\n\r\nbody\r\n".to_vec(), config())
        .err()
        .unwrap();
    assert_eq!(r.to_bytes(), b"550 5.7.7 Failed to parse message.\r\n".to_vec());
}

#[test]
fn empty_message_fails_to_parse() {
    let r = Pipeline::start(Vec::new(), config()).err().unwrap();
    assert!(matches!(r, Reply::ParseFailed));
}

#[test]
fn message_facts_are_read_from_the_parser() {
    let f = inspect_message(MESSAGE).unwrap();
    assert_eq!(f.received_count, 0);
    assert!(!f.has_date);
    assert!(!f.has_message_id);
    let with = b"Date: Tue, 1 Jul 2025 10:00:00 +0000\r\nMessage-ID: <a@b>\r\nReceived: from x\r\nSubject: s\r\n\r\nbody\r\n";
    let f = inspect_message(with).unwrap();
    assert_eq!(f.received_count, 1);
    assert!(f.has_date);
    assert!(f.has_message_id);
}

#[test]
fn strict_dkim_temp_error_stops_the_pipeline() {
    let mut c = config();
    c.dkim = VerifyStrategy::Strict;
    let mut p = Pipeline::start(MESSAGE.to_vec(), c).ok().unwrap();
    let outcomes = vec![
        DkimOutcome { result: AuthResult::Fail, domain: None, report_addr: None },
        DkimOutcome { result: AuthResult::TempError, domain: None, report_addr: None },
    ];
    let r = p.dkim(&outcomes).unwrap();
    assert_eq!(r.to_bytes(), b"451 4.7.20 No passing DKIM signatures found.\r\n".to_vec());
    assert_eq!(p.current_stage(), Stage::Done);
}

#[test]
fn strict_dkim_perm_failures_stop_the_pipeline() {
    let mut c = config();
    c.dkim = VerifyStrategy::Strict;
    let mut p = Pipeline::start(MESSAGE.to_vec(), c).ok().unwrap();
    let outcomes = vec![
        DkimOutcome { result: AuthResult::PermError, domain: None, report_addr: None },
        DkimOutcome { result: AuthResult::Fail, domain: None, report_addr: None },
    ];
    let r = p.dkim(&outcomes).unwrap();
    assert_eq!(r.to_bytes(), b"550 5.7.20 No passing DKIM signatures found.\r\n".to_vec());
}

#[test]
fn dkim_disabled_everywhere_is_not_checked() {
    let mut c = config();
    c.dkim = VerifyStrategy::Disable;
    c.dmarc = VerifyStrategy::Disable;
    let mut p = Pipeline::start(MESSAGE.to_vec(), c).ok().unwrap();
    assert!(!p.needs_dkim());
    assert!(p.dkim(&vec![]).is_none());
}

#[test]
fn dmarc_reject_stops_the_pipeline() {
    let mut c = config();
    c.dmarc = VerifyStrategy::Strict;
    let mut p = Pipeline::start(MESSAGE.to_vec(), c).ok().unwrap();
    assert!(p.dkim(&vec![]).is_none());
    assert!(p.arc(AuthResult::NoResult, false).is_none());
    let r = p
        .dmarc(DmarcOutcome {
            spf_result: AuthResult::Fail,
            dkim_result: AuthResult::Fail,
            policy: DmarcPolicy::Reject,
        })
        .unwrap();
    assert_eq!(r.to_bytes(), b"550 5.7.1 Email rejected per DMARC policy.\r\n".to_vec());
}

#[test]
fn strict_arc_failure_stops_the_pipeline() {
    let mut c = config();
    c.arc = VerifyStrategy::Strict;
    let mut p = Pipeline::start(MESSAGE.to_vec(), c).ok().unwrap();
    assert!(p.dkim(&vec![]).is_none());
    let r = p.arc(AuthResult::TempError, true).unwrap();
    assert_eq!(r.to_bytes(), b"451 4.7.29 ARC validation failed.\r\n".to_vec());
}

#[test]
fn reports_not_forwarded_are_absorbed() {
    let mut c = config();
    c.is_report = true;
    c.forward_reports = false;
    let mut p = Pipeline::start(MESSAGE.to_vec(), c).ok().unwrap();
    assert!(p.dkim(&vec![]).is_none());
    assert!(p.arc(AuthResult::NoResult, false).is_none());
    let r = p.dmarc(dmarc_none()).unwrap();
    assert_eq!(r.to_bytes(), b"250 2.0.0 Message queued for delivery.\r\n".to_vec());
}

#[test]
fn successful_accept_names_the_queue_id() {
    let p = Pipeline::start(MESSAGE.to_vec(), config()).ok().unwrap();
    let (p, reply) = run(p, 0xDEADBEEF);
    assert_eq!(reply.to_bytes(), b"250 2.0.0 Message queued with id deadbeef.\r\n".to_vec());
    assert!(p.counts_as_sent());
    let bytes = p.message_bytes();
    assert!(contains(&bytes, b"id DEADBEEF;\r\n"));
    assert!(bytes.ends_with(MESSAGE));
    assert_eq!(p.current_stage(), Stage::Done);
}

#[test]
fn trace_headers_come_in_order() {
    let p = Pipeline::start(MESSAGE.to_vec(), config()).ok().unwrap();
    let (p, _) = run(p, 1);
    let h = String::from_utf8(p.header_bytes().to_vec()).unwrap();
    let expected = "Received: from mx.test.org (mx.test.org [10.0.0.1])\r\n\t\
        by mx.foobar.org (Stalwart SMTP) with ESMTP id 1;\r\n\t\
        Tue, 1 Jul 2025 10:00:00 +0000\r\n\
        Authentication-Results: mx.foobar.org; dkim=none\r\n\
        Received-SPF: pass\r\n\
        Return-Path: <john@test.org>\r\n\
        Date: Tue, 1 Jul 2025 10:00:00 +0000\r\n\
        Message-ID: <abc@mx.foobar.org>\r\n";
    assert_eq!(h, expected);
}

#[test]
fn present_date_and_message_id_are_not_added_again() {
    let msg = b"Date: Tue, 1 Jul 2025 10:00:00 +0000\r\nMessage-ID: <a@b>\r\nSubject: s\r\n\r\nbody\r\n";
    let p = Pipeline::start(msg.to_vec(), config()).ok().unwrap();
    let (p, _) = run(p, 2);
    let h = p.header_bytes().to_vec();
    assert!(!contains(&h, b"\r\nDate: "));
    assert!(!contains(&h, b"Message-ID: "));
}

#[test]
fn disabled_trace_headers_are_left_out() {
    let mut c = config();
    c.add_received = false;
    c.add_auth_results = false;
    c.add_received_spf = false;
    c.add_return_path = false;
    c.add_date = false;
    c.add_message_id = false;
    let p = Pipeline::start(MESSAGE.to_vec(), c).ok().unwrap();
    let (p, reply) = run(p, 3);
    assert!(p.header_bytes().is_empty());
    assert_eq!(p.message_bytes(), MESSAGE.to_vec());
    assert!(matches!(reply, Reply::QueuedWithId(3)));
}

#[test]
fn size_counts_headers_and_body() {
    let p = Pipeline::start(MESSAGE.to_vec(), config()).ok().unwrap();
    let (p, _) = run(p, 4);
    assert_eq!(p.size() as usize, p.header_bytes().len() + MESSAGE.len());
    assert_eq!(p.size() as usize, p.message_bytes().len());
}

fn until_spam(c: PipelineConfig) -> Pipeline {
    let mut p = Pipeline::start(MESSAGE.to_vec(), c).ok().unwrap();
    assert!(p.dkim(&vec![]).is_none());
    assert!(p.arc(AuthResult::NoResult, false).is_none());
    assert!(p.dmarc(dmarc_none()).is_none());
    p.trace(5, &info(), b"now", b"", b"", None);
    p
}

#[test]
fn spam_verdicts() {
    let mut c = config();
    c.spam_filter = true;
    let mut p = until_spam(c);
    assert_eq!(
        p.spam(SpamAction::Reject).unwrap().to_bytes(),
        b"550 5.7.1 Message rejected due to excessive spam score.\r\n".to_vec()
    );
    let mut p = until_spam(c);
    assert!(matches!(p.spam(SpamAction::Discard), Some(Reply::QueuedForDelivery)));
    assert_eq!(p.current_stage(), Stage::Done);
    assert!(p.counts_as_sent());
    let mut p = until_spam(c);
    let before = p.header_bytes().len();
    assert!(p.spam(SpamAction::Allow(b"X-Spam-Status: No\r\n".to_vec())).is_none());
    assert!(p.header_bytes().ends_with(b"X-Spam-Status: No\r\n"));
    assert_eq!(p.header_bytes().len(), before + 19);
}

#[test]
fn spam_filter_off_ignores_the_classifier() {
    let mut p = until_spam(config());
    assert!(p.spam(SpamAction::Reject).is_none());
}

#[test]
fn milter_and_hook_rejects_are_verbatim() {
    let mut p = until_spam(config());
    assert!(p.spam(SpamAction::Allow(vec![])).is_none());
    let r = p.milter(Err(b"554 5.7.1 Milter says no.\r\n".to_vec())).unwrap();
    assert_eq!(r.to_bytes(), b"554 5.7.1 Milter says no.\r\n".to_vec());
    assert!(!p.counts_as_sent());

    let mut p = until_spam(config());
    assert!(p.spam(SpamAction::Allow(vec![])).is_none());
    assert!(p.milter(Ok(vec![])).is_none());
    let r = p.hook(Err(b"451 4.3.0 Hook unavailable.\r\n".to_vec())).err().unwrap();
    assert_eq!(r.to_bytes(), b"451 4.3.0 Hook unavailable.\r\n".to_vec());
}

#[test]
fn hook_body_replaces_milter_body() {
    let mut p = until_spam(config());
    assert!(p.spam(SpamAction::Allow(vec![])).is_none());
    assert!(p
        .milter(Ok(vec![
            Modification::ReplaceBody(b"milter body\r\n".to_vec()),
            Modification::AddHeader { name: b"X-Milter".to_vec(), value: b"yes".to_vec() },
        ]))
        .is_none());
    p.hook(Ok(vec![Modification::ReplaceBody(b"hook body\r\n".to_vec())])).unwrap();
    assert_eq!(p.body_bytes(), b"hook body\r\n");
    assert!(p.header_bytes().ends_with(b"X-Milter: yes\r\n"));
}

#[test]
fn milter_body_stays_when_the_hook_is_silent() {
    let mut p = until_spam(config());
    assert!(p.spam(SpamAction::Allow(vec![])).is_none());
    assert!(p.milter(Ok(vec![Modification::ReplaceBody(b"milter body\r\n".to_vec())])).is_none());
    p.hook(Ok(vec![])).unwrap();
    assert_eq!(p.body_bytes(), b"milter body\r\n");
}

#[test]
fn script_results() {
    let ready = || {
        let mut p = until_spam(config());
        assert!(p.spam(SpamAction::Allow(vec![])).is_none());
        assert!(p.milter(Ok(vec![])).is_none());
        p.hook(Ok(vec![])).unwrap();
        p
    };
    let mut p = ready();
    assert!(matches!(p.script(Some(ScriptResult::Discard)), Err(Reply::QueuedForDelivery)));
    let mut p = ready();
    let r = p.script(Some(ScriptResult::Reject(b"550 5.7.1 Script rejected.\r\n".to_vec()))).err().unwrap();
    assert_eq!(r.to_bytes(), b"550 5.7.1 Script rejected.\r\n".to_vec());
    let mut p = ready();
    p.script(Some(ScriptResult::Replace {
        body: b"new body\r\n".to_vec(),
        modifications: vec![Modification::AddHeader {
            name: b"X-Sieve".to_vec(),
            value: b"done\r\n".to_vec(),
        }],
    }))
    .unwrap();
    assert_eq!(p.body_bytes(), b"new body\r\n");
    assert!(p.header_bytes().ends_with(b"X-Sieve: done\r\n"));
}

#[test]
fn empty_rewriters_change_nothing() {
    let mut a = until_spam(config());
    let b = until_spam(config());
    assert!(a.spam(SpamAction::Allow(vec![])).is_none());
    assert!(a.milter(Ok(vec![])).is_none());
    assert!(a.hook(Ok(vec![])).unwrap().is_empty());
    assert!(a.script(None).unwrap().is_empty());
    assert_eq!(a.message_bytes(), b.message_bytes());
}

#[test]
fn quota_and_store_failures() {
    let mk = || {
        let mut p = until_spam(config());
        assert!(p.spam(SpamAction::Allow(vec![])).is_none());
        assert!(p.milter(Ok(vec![])).is_none());
        p.hook(Ok(vec![])).unwrap();
        p.script(None).unwrap();
        p.complete(b"a@b", b"now", b"<id@x>");
        p
    };
    let mut p = mk();
    assert_eq!(
        p.finish(false, false).to_bytes(),
        b"452 4.3.1 Mail system full, try again later.\r\n".to_vec()
    );
    let mut p = mk();
    assert_eq!(
        p.finish(true, false).to_bytes(),
        b"451 4.3.5 Unable to accept message at this time.\r\n".to_vec()
    );
    assert!(!p.counts_as_sent());
}

#[test]
fn signatures_follow_everything_else() {
    let mut p = until_spam(config());
    assert!(p.spam(SpamAction::Allow(vec![])).is_none());
    assert!(p.milter(Ok(vec![])).is_none());
    p.hook(Ok(vec![])).unwrap();
    p.script(None).unwrap();
    p.complete(b"a@b", b"now", b"<id@x>");
    p.sign(b"DKIM-Signature: v=1; d=foobar.org\r\n");
    assert!(p.header_bytes().ends_with(b"Message-ID: <id@x>\r\nDKIM-Signature: v=1; d=foobar.org\r\n"));
}

#[test]
fn arc_set_is_added_only_when_sealable() {
    let mut c = config();
    c.arc_sealer = true;
    let mut p = Pipeline::start(MESSAGE.to_vec(), c).ok().unwrap();
    assert!(p.dkim(&vec![DkimOutcome { result: AuthResult::Pass, domain: None, report_addr: None }]).is_none());
    assert!(p.arc(AuthResult::NoResult, true).is_none());
    assert!(p.should_seal());
    assert!(p.dmarc(dmarc_none()).is_none());
    p.trace(7, &info(), b"now", b"", b"", Some(b"ARC-Seal: i=1\r\n".to_vec()));
    assert!(p.header_bytes().ends_with(b"ARC-Seal: i=1\r\n"));

    let mut p = Pipeline::start(MESSAGE.to_vec(), c).ok().unwrap();
    assert!(p.dkim(&vec![]).is_none());
    assert!(p.arc(AuthResult::NoResult, true).is_none());
    assert!(!p.should_seal());
}

#[test]
fn received_header_with_tls_asn_and_country() {
    let mut i = info();
    i.ptr = None;
    i.asn = Some(AsnInfo { id: 64512, name: Some(b"Example Net".to_vec()) });
    i.country = Some(b"US".to_vec());
    i.tls = Some(TlsInfo { version: b"TLSv1.3".to_vec(), cipher: b"TLS13_AES_256_GCM_SHA384".to_vec() });
    i.authenticated = true;
    let mut p = Pipeline::start(MESSAGE.to_vec(), config()).ok().unwrap();
    assert!(p.dkim(&vec![]).is_none());
    assert!(p.arc(AuthResult::NoResult, false).is_none());
    assert!(p.dmarc(dmarc_none()).is_none());
    p.trace(0xABCDEF0123, &i, b"Tue, 1 Jul 2025 10:00:00 +0000", b"", b"", None);
    let h = String::from_utf8(p.header_bytes().to_vec()).unwrap();
    assert_eq!(
        h,
        "Received: from mx.test.org (unknown [10.0.0.1] (AS64512 Example Net, US))\r\n\t\
         (using TLSv1.3 with cipher TLS13_AES_256_GCM_SHA384)\r\n\t\
         by mx.foobar.org (Stalwart SMTP) with ESMTPSA id ABCDEF0123;\r\n\t\
         Tue, 1 Jul 2025 10:00:00 +0000\r\n"
    );
}

#[test]
fn received_header_with_country_only() {
    let mut i = info();
    i.country = Some(b"DE".to_vec());
    i.tls = Some(TlsInfo { version: b"TLSv1.2".to_vec(), cipher: b"X".to_vec() });
    let mut p = Pipeline::start(MESSAGE.to_vec(), config()).ok().unwrap();
    assert!(p.dkim(&vec![]).is_none());
    assert!(p.arc(AuthResult::NoResult, false).is_none());
    assert!(p.dmarc(dmarc_none()).is_none());
    p.trace(10, &i, b"d", b"", b"", None);
    let h = String::from_utf8(p.header_bytes().to_vec()).unwrap();
    assert!(h.starts_with("Received: from mx.test.org (mx.test.org [10.0.0.1] (DE))\r\n\t(using TLSv1.2 with cipher X)\r\n\tby mx.foobar.org (Stalwart SMTP) with ESMTPS id A;"));
}
