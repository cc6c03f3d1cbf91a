use smtp_inbound::schedule::{
    notify_flags, recipient_timing, returns_at_deadline, schedule_recipients, sort_recipients,
    QueueExpiry, QueueSettings, RcptAddress, Schedule, MAIL_BY_RETURN, RCPT_NOTIFY_DELAY,
    RCPT_NOTIFY_FAILURE, RCPT_NOTIFY_NEVER, RCPT_NOTIFY_SUCCESS,
};

fn rcpt(addr: &str) -> RcptAddress {
    RcptAddress {
        address: addr.as_bytes().to_vec(),
        address_lcase: addr.to_lowercase().into_bytes(),
        flags: 0,
        orcpt: None,
    }
}

fn queue(notify: Vec<u64>, expiry: QueueExpiry) -> QueueSettings {
    QueueSettings { name: b"default".to_vec(), notify, expiry }
}

#[test]
fn flag_values_match_the_protocol_crate() {
    assert_eq!(RCPT_NOTIFY_SUCCESS, smtp_proto::RCPT_NOTIFY_SUCCESS);
    assert_eq!(RCPT_NOTIFY_FAILURE, smtp_proto::RCPT_NOTIFY_FAILURE);
    assert_eq!(RCPT_NOTIFY_DELAY, smtp_proto::RCPT_NOTIFY_DELAY);
    assert_eq!(RCPT_NOTIFY_NEVER, smtp_proto::RCPT_NOTIFY_NEVER);
    assert_eq!(MAIL_BY_RETURN, smtp_proto::MAIL_BY_RETURN);
}

#[test]
fn recipients_sorted_by_lowercase_address() {
    let input = vec![
        rcpt("bill@foobar.org"),
        rcpt("John@test.org"),
        rcpt("alice@test.org"),
        rcpt("Bill@Foobar.org"),
        rcpt("delay-random@foobar.org"),
    ];
    let mut expected: Vec<Vec<u8>> = input.iter().map(|r| r.address_lcase.clone()).collect();
    expected.sort();
    let sorted = sort_recipients(input);
    let got: Vec<Vec<u8>> = sorted.iter().map(|r| r.address_lcase.clone()).collect();
    assert_eq!(got, expected);
    assert_eq!(sorted[1].address, b"bill@foobar.org".to_vec());
    assert_eq!(sorted[2].address, b"Bill@Foobar.org".to_vec());
}

#[test]
fn sorting_edge_cases() {
    assert!(sort_recipients(Vec::<RcptAddress>::new()).is_empty());
    let one = sort_recipients(vec![rcpt("x@y")]);
    assert_eq!(one.len(), 1);
    let prefix = sort_recipients(vec![rcpt("ab@c"), rcpt("a")]);
    assert_eq!(prefix[0].address, b"a".to_vec());
}

#[test]
fn notify_flags_default_to_delay_and_failure() {
    assert_eq!(notify_flags(0), RCPT_NOTIFY_DELAY | RCPT_NOTIFY_FAILURE);
    assert_eq!(notify_flags(RCPT_NOTIFY_NEVER), RCPT_NOTIFY_NEVER);
    assert_eq!(notify_flags(RCPT_NOTIFY_SUCCESS | 256), RCPT_NOTIFY_SUCCESS | 256);
    assert_eq!(notify_flags(256), 256 | RCPT_NOTIFY_DELAY | RCPT_NOTIFY_FAILURE);
}

#[test]
fn by_return_flag() {
    assert!(returns_at_deadline(MAIL_BY_RETURN));
    assert!(!returns_at_deadline(0));
}

#[test]
fn timing_without_deadline() {
    let q = queue(vec![3600, 7200], QueueExpiry::Duration(86400 * 5));
    let t = recipient_timing(&q, 0, 0, false);
    assert_eq!(t.retry, Schedule { due_in: 0, remaining: 0 });
    assert_eq!(t.notify, Schedule { due_in: 3600, remaining: 0 });
    assert_eq!(t.expires, QueueExpiry::Duration(86400 * 5));
    let t = recipient_timing(&q, 100, 0, false);
    assert_eq!(t.retry.due_in, 100);
    assert_eq!(t.notify.due_in, 3700);
    assert_eq!(t.expires, QueueExpiry::Duration(86400 * 5 + 100));
    let c = queue(vec![], QueueExpiry::Count(3));
    let t = recipient_timing(&c, 0, 0, false);
    assert_eq!(t.notify.due_in, 86400);
    assert_eq!(t.expires, QueueExpiry::Count(3));
}

#[test]
fn timing_with_deadline_and_return() {
    let q = queue(vec![3600], QueueExpiry::Duration(1000));
    let t = recipient_timing(&q, 10, -500, true);
    assert_eq!(t.notify, Schedule { due_in: 3610, remaining: 0 });
    assert_eq!(t.expires, QueueExpiry::Duration(500));
}

#[test]
fn timing_with_positive_deadline() {
    let q = queue(vec![3600, 7200, 14400], QueueExpiry::Duration(10000));
    let t = recipient_timing(&q, 0, 200, false);
    assert_eq!(t.notify, Schedule { due_in: 200, remaining: 2 });
    assert_eq!(t.expires, QueueExpiry::Duration(10000));
    let t = recipient_timing(&q, 0, 20000, false);
    assert_eq!(t.notify.due_in, 3600);
}

#[test]
fn timing_with_negative_deadline() {
    let q = queue(vec![3600], QueueExpiry::Duration(10000));
    let t = recipient_timing(&q, 5, -1500, false);
    assert_eq!(t.notify, Schedule { due_in: 8505, remaining: 0 });
    let t = recipient_timing(&q, 0, -20000, false);
    assert_eq!(t.notify.due_in, 3600);
    let t = recipient_timing(&q, 0, i64::MIN, false);
    assert_eq!(t.notify.due_in, 3600);
}

#[test]
fn timing_with_deadline_on_counted_queue() {
    let q = queue(vec![], QueueExpiry::Count(5));
    let t = recipient_timing(&q, 0, -1500, false);
    assert_eq!(t.notify, Schedule { due_in: 86400, remaining: 0 });
    assert_eq!(t.expires, QueueExpiry::Duration(1500));
}

#[test]
fn recipients_are_scheduled_in_order() {
    let sorted = sort_recipients(vec![rcpt("john@test.org"), rcpt("bill@foobar.org")]);
    let queues = vec![
        QueueSettings { name: b"remote".to_vec(), notify: vec![100], expiry: QueueExpiry::Duration(200) },
        QueueSettings { name: b"local".to_vec(), notify: vec![], expiry: QueueExpiry::Count(2) },
    ];
    let r = schedule_recipients(sorted, queues, 0, 0, false);
    assert_eq!(r.len(), 2);
    assert_eq!(r[0].address, b"bill@foobar.org".to_vec());
    assert_eq!(r[0].queue, b"remote".to_vec());
    assert_eq!(r[0].flags, RCPT_NOTIFY_DELAY | RCPT_NOTIFY_FAILURE);
    assert_eq!(r[0].timing.notify.due_in, 100);
    assert_eq!(r[1].address, b"john@test.org".to_vec());
    assert_eq!(r[1].queue, b"local".to_vec());
    assert_eq!(r[1].timing.expires, QueueExpiry::Count(2));
}
