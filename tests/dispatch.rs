use push_notify_service::publisher::{
    can_send_notification, decide_dispatch, digest_message, last_sent_key, record_send_outcome,
    unsent_count_key, DispatchDecision, RateLimitEntry, RATE_LIMIT_WINDOW_MS,
};

const NOW: i64 = 1_700_000_000_000;

fn send_parts(d: &DispatchDecision) -> Option<(String, String)> {
    match d {
        DispatchDecision::Send { title, body } => Some((title.clone(), body.clone())),
        DispatchDecision::Throttled => None,
    }
}

#[test]
fn throttled_then_digest() {
    let title = "Account Notification".to_string();
    let body = "Two-factor authentication was enabled on x.".to_string();
    let entry = RateLimitEntry { last_sent: Some(NOW - 1000), unsent_count: 3 };
    let (d, next) = decide_dispatch(entry, NOW, RATE_LIMIT_WINDOW_MS, &title, &body);
    assert!(matches!(d, DispatchDecision::Throttled));
    assert_eq!(next.unsent_count, 4);
    assert_eq!(next.last_sent, Some(NOW - 1000));
    let later = NOW + 1000;
    let (d, kept) = decide_dispatch(next, later, RATE_LIMIT_WINDOW_MS, &title, &body);
    assert_eq!(
        send_parts(&d),
        Some(("You have many notifications".to_string(), "You have 4 unread notifications. Please check your app.".to_string()))
    );
    assert_eq!(kept, next);
    let after = record_send_outcome(kept, later, true);
    assert_eq!(after, RateLimitEntry { last_sent: Some(later), unsent_count: 0 });
}

#[test]
fn per_device_not_per_user() {
    let title = "Order Notification".to_string();
    let body = "Order 1 matched.".to_string();
    let t1 = RateLimitEntry { last_sent: Some(NOW - 500), unsent_count: 0 };
    let t2 = RateLimitEntry { last_sent: None, unsent_count: 0 };
    let (d1, n1) = decide_dispatch(t1, NOW, RATE_LIMIT_WINDOW_MS, &title, &body);
    let (d2, n2) = decide_dispatch(t2, NOW, RATE_LIMIT_WINDOW_MS, &title, &body);
    assert!(matches!(d1, DispatchDecision::Throttled));
    assert_eq!(n1.unsent_count, 1);
    assert_eq!(send_parts(&d2), Some((title.clone(), body.clone())));
    assert_eq!(n2, t2);
}

#[test]
fn one_held_back_is_not_a_digest() {
    let title = "T".to_string();
    let body = "B".to_string();
    let e = RateLimitEntry { last_sent: Some(NOW - 2000), unsent_count: 1 };
    let (d, _) = decide_dispatch(e, NOW, RATE_LIMIT_WINDOW_MS, &title, &body);
    assert_eq!(send_parts(&d), Some((title, body)));
}

#[test]
fn failed_push_changes_nothing() {
    let e = RateLimitEntry { last_sent: Some(NOW - 5000), unsent_count: 2 };
    assert_eq!(record_send_outcome(e, NOW, false), e);
}

#[test]
fn window_boundary() {
    assert!(can_send_notification(None, NOW, 2000));
    assert!(!can_send_notification(Some(NOW - 1999), NOW, 2000));
    assert!(can_send_notification(Some(NOW - 2000), NOW, 2000));
    assert!(can_send_notification(Some(i64::MIN), i64::MAX, 2000));
    assert!(!can_send_notification(Some(i64::MAX), i64::MIN, 2000));
}

#[test]
fn counter_stops_at_the_largest() {
    let e = RateLimitEntry { last_sent: Some(NOW), unsent_count: i64::MAX };
    let (_, n) = decide_dispatch(e, NOW, 2000, &"t".to_string(), &"b".to_string());
    assert_eq!(n.unsent_count, i64::MAX);
}

#[test]
fn no_two_sends_within_the_window() {
    let mut entry = RateLimitEntry { last_sent: None, unsent_count: 0 };
    let mut sent: Vec<i64> = Vec::new();
    let t = "t".to_string();
    for k in 0..40i64 {
        let now = NOW + k * 300;
        let (d, next) = decide_dispatch(entry, now, RATE_LIMIT_WINDOW_MS, &t, &t);
        entry = match d {
            DispatchDecision::Send { .. } => {
                sent.push(now);
                record_send_outcome(next, now, k % 3 != 0)
            }
            DispatchDecision::Throttled => next,
        };
        if let Some(last) = entry.last_sent {
            assert!(sent.contains(&last));
        }
    }
    let delivered: Vec<i64> = sent.iter().copied().filter(|s| (s - NOW) / 300 % 3 != 0).collect();
    for w in delivered.windows(2) {
        assert!(w[1] - w[0] >= RATE_LIMIT_WINDOW_MS);
    }
    assert!(delivered.len() > 3);
}

#[test]
fn keys_and_digest_text() {
    assert_eq!(last_sent_key(&"tok".to_string()), "raidenx:notification:tok:last_sent");
    assert_eq!(unsent_count_key(&"tok".to_string()), "raidenx:notification:tok:unsent_count");
    assert_eq!(digest_message(12), "You have 12 unread notifications. Please check your app.");
}
