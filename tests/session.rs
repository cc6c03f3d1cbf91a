use smtp_inbound::auth::{passing_domains, report_targets, AuthResult, DkimOutcome, VerifyStrategy};
use smtp_inbound::pipeline::{MessageSource, Pipeline, PipelineConfig};
use smtp_inbound::auth::{DmarcOutcome, DmarcPolicy};
use smtp_inbound::schedule::{sort_recipients, QueueExpiry, QueueSettings, RcptAddress, MAIL_BY_RETURN};
use smtp_inbound::session::{
    build_message, can_send_data, SessionAddress, SessionData, DEFAULT_MAX_MESSAGES,
};

fn rcpt(addr: &str) -> RcptAddress {
    RcptAddress {
        address: addr.as_bytes().to_vec(),
        address_lcase: addr.to_lowercase().into_bytes(),
        flags: 0,
        orcpt: None,
    }
}

#[test]
fn data_needs_a_recipient() {
    let r = can_send_data(0, 0, DEFAULT_MAX_MESSAGES).err().unwrap();
    assert_eq!(r.to_bytes(), b"503 5.5.1 RCPT is required first.\r\n".to_vec());
}

#[test]
fn data_stops_at_the_message_limit() {
    assert!(can_send_data(1, 9, DEFAULT_MAX_MESSAGES).is_ok());
    let r = can_send_data(1, 10, DEFAULT_MAX_MESSAGES).err().unwrap();
    assert_eq!(
        r.to_bytes(),
        b"452 4.4.5 Maximum number of messages per session exceeded.\r\n".to_vec()
    );
    assert!(r.is_temporary());
}

#[test]
fn message_record_from_session() {
    let data = SessionData {
        mail_from: SessionAddress {
            address: b"John@test.org".to_vec(),
            address_lcase: b"john@test.org".to_vec(),
            domain: b"test.org".to_vec(),
            flags: MAIL_BY_RETURN,
            dsn_info: Some(b"env-1".to_vec()),
        },
        priority: 3,
        remote_ip: b"10.0.0.1".to_vec(),
        local_port: 25,
        future_release: 0,
        delivery_by: 600,
    };
    let rcpts = sort_recipients(vec![rcpt("bill@foobar.org")]);
    let queues = vec![QueueSettings {
        name: b"remote".to_vec(),
        notify: vec![300],
        expiry: QueueExpiry::Duration(1000),
    }];
    let m = build_message(data, rcpts, queues, 0xDEADBEEF, 1_700_000_000);
    assert_eq!(m.queue_id, 0xDEADBEEF);
    assert_eq!(m.return_path, b"John@test.org".to_vec());
    assert_eq!(m.return_path_lcase, b"john@test.org".to_vec());
    assert_eq!(m.return_path_domain, b"test.org".to_vec());
    assert_eq!(m.size, 0);
    assert_eq!(m.priority, 3);
    assert_eq!(m.received_via_port, 25);
    assert_eq!(m.env_id, Some(b"env-1".to_vec()));
    assert_eq!(m.recipients.len(), 1);
    assert_eq!(m.recipients[0].timing.expires, QueueExpiry::Duration(600));
    assert_eq!(m.recipients[0].timing.notify.due_in, 300);
}

fn sig(result: AuthResult, domain: &str, report: bool) -> DkimOutcome {
    DkimOutcome {
        result,
        domain: Some(domain.as_bytes().to_vec()),
        report_addr: if report { Some(b"reports@example.org".to_vec()) } else { None },
    }
}

#[test]
fn passing_domains_and_report_targets() {
    let outcomes = vec![
        sig(AuthResult::Pass, "a.org", false),
        sig(AuthResult::Fail, "b.org", true),
        sig(AuthResult::Pass, "c.org", true),
        DkimOutcome { result: AuthResult::Pass, domain: None, report_addr: None },
    ];
    assert_eq!(passing_domains(&outcomes), vec![b"a.org".to_vec(), b"c.org".to_vec()]);
    assert_eq!(report_targets(&outcomes), vec![1, 2]);
    assert!(passing_domains(&vec![]).is_empty());
}

fn config() -> PipelineConfig {
    PipelineConfig {
        max_received: 50,
        dkim: VerifyStrategy::Relaxed,
        arc: VerifyStrategy::Relaxed,
        dmarc: VerifyStrategy::Relaxed,
        arc_sealer: false,
        spf_mail_from: true,
        is_report: false,
        forward_reports: true,
        add_received: true,
        add_auth_results: true,
        add_received_spf: true,
        add_return_path: true,
        add_date: true,
        add_message_id: true,
        spam_filter: false,
    }
}

#[test]
fn message_source_records_dmarc_pass() {
    let mut p = Pipeline::start(b"Subject: x\r\n\r\nbody\r\n".to_vec(), config()).ok().unwrap();
    assert!(p.dkim(&vec![]).is_none());
    assert!(p.arc(AuthResult::NoResult, false).is_none());
    assert!(p
        .dmarc(DmarcOutcome {
            spf_result: AuthResult::Pass,
            dkim_result: AuthResult::Fail,
            policy: DmarcPolicy::Reject,
        })
        .is_none());
    assert_eq!(p.source(false), MessageSource::Unauthenticated { dmarc_pass: true });
    assert_eq!(p.source(true), MessageSource::Authenticated);
    assert!(p.dmarc_report_due(true));
    assert!(!p.dmarc_report_due(false));
}

#[test]
fn reports_do_not_trigger_reports() {
    let mut c = config();
    c.is_report = true;
    let p = Pipeline::start(b"Subject: x\r\n\r\nbody\r\n".to_vec(), c).ok().unwrap();
    assert!(!p.dmarc_report_due(true));
}

#[test]
fn message_record_stores_recipients_sorted() {
    let data = SessionData {
        mail_from: SessionAddress {
            address: b"john@test.org".to_vec(),
            address_lcase: b"john@test.org".to_vec(),
            domain: b"test.org".to_vec(),
            flags: 0,
            dsn_info: None,
        },
        priority: 0,
        remote_ip: b"127.0.0.1".to_vec(),
        local_port: 25,
        future_release: 0,
        delivery_by: 0,
    };
    let rcpts = vec![rcpt("Delay-Random@foobar.org"), rcpt("bill@foobar.org"), rcpt("abc@test.org")];
    let queues = vec![
        QueueSettings { name: b"q-delay".to_vec(), notify: vec![10], expiry: QueueExpiry::Count(1) },
        QueueSettings { name: b"q-bill".to_vec(), notify: vec![20], expiry: QueueExpiry::Count(2) },
        QueueSettings { name: b"q-abc".to_vec(), notify: vec![30], expiry: QueueExpiry::Count(3) },
    ];
    let m = build_message(data, rcpts, queues, 1, 0);
    let order: Vec<Vec<u8>> = m.recipients.iter().map(|r| r.address_lcase.clone()).collect();
    assert_eq!(
        order,
        vec![b"abc@test.org".to_vec(), b"bill@foobar.org".to_vec(), b"delay-random@foobar.org".to_vec()]
    );
    assert_eq!(m.recipients[0].queue, b"q-abc".to_vec());
    assert_eq!(m.recipients[0].timing.notify.due_in, 30);
    assert_eq!(m.recipients[1].queue, b"q-bill".to_vec());
    assert_eq!(m.recipients[2].queue, b"q-delay".to_vec());
    assert_eq!(m.recipients[2].address, b"Delay-Random@foobar.org".to_vec());
}

#[test]
fn absorbed_reports_count_as_sent() {
    let mut c = config();
    c.is_report = true;
    c.forward_reports = false;
    let mut p = Pipeline::start(b"Subject: x\r\n\r\nbody\r\n".to_vec(), c).ok().unwrap();
    assert!(!p.counts_as_sent());
    assert!(p.dkim(&vec![]).is_none());
    assert!(p.arc(AuthResult::NoResult, false).is_none());
    assert!(p
        .dmarc(DmarcOutcome {
            spf_result: AuthResult::NoResult,
            dkim_result: AuthResult::NoResult,
            policy: DmarcPolicy::NoAction,
        })
        .is_some());
    assert!(p.counts_as_sent());
}

#[test]
fn dmarc_rejections_do_not_count_as_sent() {
    let mut c = config();
    c.dmarc = VerifyStrategy::Strict;
    let mut p = Pipeline::start(b"Subject: x\r\n\r\nbody\r\n".to_vec(), c).ok().unwrap();
    assert!(p.dkim(&vec![]).is_none());
    assert!(p.arc(AuthResult::NoResult, false).is_none());
    assert!(p
        .dmarc(DmarcOutcome {
            spf_result: AuthResult::Fail,
            dkim_result: AuthResult::Fail,
            policy: DmarcPolicy::Reject,
        })
        .is_some());
    assert!(!p.counts_as_sent());
}
