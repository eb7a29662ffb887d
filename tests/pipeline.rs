use push_notify_service::account_activity::{
    AccountNotifData, AccountNotifType, ActionStatus, KycAction, MfaAction, PasswordAction,
};
use push_notify_service::grouping::{group_by_user_id, second_of_millis, sort_by_timestamp};
use push_notify_service::notification::{
    NotifMessage, NotifMetadata, NotifType, NotificationPreferences, OrderNotifData,
    TradingType, TransactionNotifData,
};
use push_notify_service::persister::NotificationPersistConsumer;
use push_notify_service::preferences::{get_redis_preference_key, PreferenceCache};
use push_notify_service::publisher::NotificationPublishConsumer;

fn order(user: &str, ts: i64, id: u64, status: &str) -> NotifMessage {
    NotifMessage {
        user_id: user.to_string(),
        notif_type: NotifType::Order,
        timestamp: ts,
        metadata: NotifMetadata::Order(OrderNotifData { order_id: id, status: status.to_string() }),
    }
}

fn transaction(user: &str, ts: i64, kind: TradingType, status: &str) -> NotifMessage {
    NotifMessage {
        user_id: user.to_string(),
        notif_type: NotifType::Transaction,
        timestamp: ts,
        metadata: NotifMetadata::Transaction(tx_data(user, kind, status)),
    }
}

fn tx_data(user: &str, kind: TradingType, status: &str) -> TransactionNotifData {
    TransactionNotifData {
        id: 7,
        user_id: user.to_string(),
        asset: "USDT".to_string(),
        network_id: "sui".to_string(),
        tx_hash: "0xabc".to_string(),
        trading_type: kind,
        amount: "12.5".to_string(),
        status: status.to_string(),
    }
}

fn account(user: &str, ts: i64, activity: AccountNotifType, status: ActionStatus) -> NotifMessage {
    NotifMessage {
        user_id: user.to_string(),
        notif_type: NotifType::Account,
        timestamp: ts,
        metadata: NotifMetadata::Account(AccountNotifData {
            user_id: user.to_string(),
            activity_type: activity,
            action_status: status,
        }),
    }
}

#[test]
fn coalesced_order_persists_latest() {
    let cache = PreferenceCache::new();
    let batch = vec![order("U1", 1700000000100, 42, "NEW"), order("U1", 1700000000900, 42, "FILLED")];
    let rows = NotificationPersistConsumer::handle_batch(batch, &cache);
    assert_eq!(rows.len(), 1);
    assert_eq!(rows[0].message, "Order 42 matched.");
    assert_eq!(rows[0].title, "Order Notification");
    assert_eq!(rows[0].notif_type, "ORDER");
    assert_eq!(rows[0].user_id, "U1");
    assert_eq!(rows[0].created_at, 1700000000900);
    assert_eq!(rows[0].updated_at, 1700000000900);
    assert!(!rows[0].is_read);
}

#[test]
fn coalesced_order_publishes_latest() {
    let cache = PreferenceCache::new();
    let batch = vec![order("U1", 1700000000900, 42, "FILLED"), order("U1", 1700000000100, 42, "NEW")];
    let pushes = NotificationPublishConsumer::handle_batch(batch, &cache);
    assert_eq!(pushes.len(), 1);
    assert_eq!(pushes[0].0, "Order Notification");
    assert_eq!(pushes[0].1.user_id, "U1");
    assert_eq!(pushes[0].1.message, "Order 42 matched.");
}

#[test]
fn disabled_type_yields_nothing() {
    let mut cache = PreferenceCache::new();
    let prefs = NotificationPreferences { transaction: false, account: true, announcement: true, campaign: true };
    cache.update(&"U2".to_string(), prefs);
    let batch = vec![transaction("U2", 1700000000000, TradingType::Add, "COMPLETED")];
    assert_eq!(NotificationPersistConsumer::handle_batch(batch.clone(), &cache).len(), 0);
    assert_eq!(NotificationPublishConsumer::handle_batch(batch, &cache).len(), 0);
}

#[test]
fn disabled_transactions_also_gate_orders_but_not_accounts() {
    let mut cache = PreferenceCache::new();
    let prefs = NotificationPreferences { transaction: false, account: true, announcement: true, campaign: true };
    cache.update(&"U2".to_string(), prefs);
    let batch = vec![
        order("U2", 1700000000000, 1, "NEW"),
        account("U2", 1700000000000, AccountNotifType::Mfa(MfaAction::Enabled), ActionStatus::Success),
        order("U9", 1700000000000, 2, "NEW"),
    ];
    let groups = group_by_user_id(batch, &cache);
    assert_eq!(groups.len(), 2);
    for (key, _) in &groups {
        assert!(!(key.user_id == "U2" && key.notif_type == NotifType::Order));
    }
}

#[test]
fn unsupported_order_status_is_skipped() {
    let cache = PreferenceCache::new();
    let data = OrderNotifData { order_id: 5, status: "FOO".to_string() };
    assert_eq!(data.construct_message(), None);
    let batch = vec![order("U5", 1700000000000, 5, "FOO")];
    assert_eq!(NotificationPersistConsumer::handle_batch(batch.clone(), &cache).len(), 0);
    assert_eq!(NotificationPublishConsumer::handle_batch(batch, &cache).len(), 0);
}

#[test]
fn empty_batch_yields_nothing() {
    let cache = PreferenceCache::new();
    assert_eq!(NotificationPersistConsumer::handle_batch(vec![], &cache).len(), 0);
    assert_eq!(NotificationPublishConsumer::handle_batch(vec![], &cache).len(), 0);
}

#[test]
fn grouping_twice_gives_the_same_result() {
    let cache = PreferenceCache::new();
    let batch = vec![
        transaction("A", 1700000001500, TradingType::Remove, "FAILED"),
        order("B", 1700000000200, 3, "CANCELLED"),
        transaction("A", 1700000001100, TradingType::Add, "COMPLETED"),
        order("B", 1700000000100, 3, "NEW"),
    ];
    let first = group_by_user_id(batch.clone(), &cache);
    let second = group_by_user_id(batch, &cache);
    assert_eq!(first.len(), second.len());
    for (a, b) in first.iter().zip(second.iter()) {
        assert_eq!(a.0, b.0);
        assert_eq!(a.1.len(), b.1.len());
        for (x, y) in a.1.iter().zip(b.1.iter()) {
            assert_eq!(x.message, y.message);
            assert_eq!(x.timestamp, y.timestamp);
        }
    }
}

#[test]
fn groups_are_ordered_by_first_appearance_and_time() {
    let cache = PreferenceCache::new();
    let batch = vec![
        order("B", 1700000000200, 3, "CANCELLED"),
        order("B", 1700000000100, 3, "NEW"),
        order("A", 1700000000150, 4, "REJECTED"),
        order("B", 1700000001000, 3, "FILLED"),
    ];
    let groups = group_by_user_id(batch, &cache);
    assert_eq!(groups.len(), 3);
    assert_eq!(groups[0].0.user_id, "B");
    assert_eq!(groups[0].0.second, 1700000000);
    assert_eq!(groups[0].1.len(), 2);
    assert_eq!(groups[0].1[0].message, "Order 3 placed successfully.");
    assert_eq!(groups[0].1[1].message, "Order 3 cancelled.");
    assert_eq!(groups[1].0.user_id, "A");
    assert_eq!(groups[1].1[0].message, "Order 4 rejected.");
    assert_eq!(groups[2].0.second, 1700000001);
}

#[test]
fn transactions_persist_every_event_with_its_timestamp() {
    let cache = PreferenceCache::new();
    let batch = vec![
        transaction("A", 1700000000500, TradingType::Add, "COMPLETED"),
        transaction("A", 1700000000100, TradingType::Sell, "REJECTED"),
    ];
    let rows = NotificationPersistConsumer::handle_batch(batch, &cache);
    assert_eq!(rows.len(), 2);
    assert_eq!(rows[0].created_at, 1700000000100);
    assert_eq!(rows[0].updated_at, 1700000000100);
    assert_eq!(rows[0].message, "Your SELL transaction of 12.5 USDT failed at 2023-11-14 22:13:20.");
    assert_eq!(rows[1].created_at, 1700000000500);
    assert_eq!(rows[1].message, "You have successfully deposit 12.5 USDT at 2023-11-14 22:13:20");
    assert_eq!(rows[1].title, "Transaction Notification");
    assert_eq!(rows[1].notif_type, "TRANSACTION");
}

#[test]
fn account_events_persist_each() {
    let cache = PreferenceCache::new();
    let batch = vec![
        account("C", 1700000000000, AccountNotifType::Kyc(KycAction::Approved), ActionStatus::Success),
        account("C", 1700000000001, AccountNotifType::Password(PasswordAction::Reset), ActionStatus::Failed),
    ];
    let rows = NotificationPersistConsumer::handle_batch(batch, &cache);
    assert_eq!(rows.len(), 2);
    assert_eq!(rows[0].message, "Your identity verification was approved on 2023-11-14 22:13:20.");
    assert_eq!(
        rows[1].message,
        "Your request to reset password failed on 2023-11-14 22:13:20. If you do not recognize this activity, please contact us immediately."
    );
    assert_eq!(rows[1].title, "Account Notification");
}

#[test]
fn announcements_are_published_but_not_persisted() {
    let cache = PreferenceCache::new();
    let mut e = order("D", 1700000000000, 9, "NEW");
    e.notif_type = NotifType::Announcement;
    assert_eq!(NotificationPersistConsumer::handle_batch(vec![e.clone()], &cache).len(), 0);
    let pushes = NotificationPublishConsumer::handle_batch(vec![e], &cache);
    assert_eq!(pushes.len(), 1);
    assert_eq!(pushes[0].0, "Announcement Notification");
    assert_eq!(pushes[0].1.message, "Order 9 placed successfully.");
}

#[test]
fn sort_is_stable() {
    let batch = vec![
        order("A", 20, 1, "NEW"),
        order("A", 10, 2, "NEW"),
        order("A", 20, 3, "NEW"),
        order("A", 5, 4, "NEW"),
        order("A", 10, 5, "NEW"),
    ];
    let sorted = sort_by_timestamp(batch);
    let ids: Vec<u64> = sorted
        .iter()
        .map(|m| match &m.metadata {
            NotifMetadata::Order(o) => o.order_id,
            _ => 0,
        })
        .collect();
    assert_eq!(ids, vec![4, 2, 5, 1, 3]);
}

#[test]
fn seconds_round_toward_zero() {
    assert_eq!(second_of_millis(1700000000999), 1700000000);
    assert_eq!(second_of_millis(0), 0);
    assert_eq!(second_of_millis(-1), 0);
    assert_eq!(second_of_millis(-1500), -1);
    assert_eq!(second_of_millis(i64::MIN), -9223372036854775);
}

#[test]
fn order_messages() {
    let m = |s: &str, id: u64| OrderNotifData { order_id: id, status: s.to_string() }.construct_message();
    assert_eq!(m("NEW", 42).as_deref(), Some("Order 42 placed successfully."));
    assert_eq!(m("FILLED", 0).as_deref(), Some("Order 0 matched."));
    assert_eq!(m("CANCELLED", 18446744073709551615).as_deref(), Some("Order 18446744073709551615 cancelled."));
    assert_eq!(m("REJECTED", 1234567890).as_deref(), Some("Order 1234567890 rejected."));
    assert_eq!(m("new", 1), None);
}

#[test]
fn transaction_messages() {
    let t = "2024-01-02 03:04:05".to_string();
    let m = |k: TradingType, s: &str| tx_data("A", k, s).construct_message(&t);
    assert_eq!(m(TradingType::Add, "COMPLETED").as_deref(), Some("You have successfully deposit 12.5 USDT at 2024-01-02 03:04:05"));
    let withdraw = "You have successfully withdraw 12.5 USDT at 2024-01-02 03:04:05. If you do not recognize this activity, please contact us immediately.";
    assert_eq!(m(TradingType::Remove, "COMPLETED").as_deref(), Some(withdraw));
    assert_eq!(m(TradingType::Buy, "COMPLETED").as_deref(), Some(withdraw));
    assert_eq!(m(TradingType::Sell, "COMPLETED").as_deref(), Some(withdraw));
    assert_eq!(m(TradingType::Buy, "FAILED").as_deref(), Some("Your BUY transaction of 12.5 USDT failed at 2024-01-02 03:04:05."));
    assert_eq!(m(TradingType::Add, "REJECTED").as_deref(), Some("Your ADD transaction of 12.5 USDT failed at 2024-01-02 03:04:05."));
    assert_eq!(m(TradingType::Add, "PENDING"), None);
}

#[test]
fn account_messages() {
    let t = "2024-01-02 03:04:05".to_string();
    let d = |a: AccountNotifType, s: ActionStatus| AccountNotifData { user_id: "u".to_string(), activity_type: a, action_status: s };
    assert_eq!(
        d(AccountNotifType::Mfa(MfaAction::Disabled), ActionStatus::Success).construct_message(&t),
        "Two-factor authentication was disabled on 2024-01-02 03:04:05. If you do not recognize this activity, please contact us immediately."
    );
    assert_eq!(
        d(AccountNotifType::Password(PasswordAction::Initialized), ActionStatus::Success).construct_message(&t),
        "Your account password was set up on 2024-01-02 03:04:05. Your account is ready to use."
    );
    assert_eq!(
        d(AccountNotifType::Kyc(KycAction::Upgraded), ActionStatus::Failed).construct_message(&t),
        "Your request to upgrade KYC failed on 2024-01-02 03:04:05. If you do not recognize this activity, please contact us immediately."
    );
}

#[test]
fn event_time_text_comes_from_its_timestamp() {
    let e = transaction("A", 0, TradingType::Add, "COMPLETED");
    assert_eq!(e.render().as_deref(), Some("You have successfully deposit 12.5 USDT at 1970-01-01 00:00:00"));
    let far = transaction("A", i64::MAX, TradingType::Add, "COMPLETED");
    assert_eq!(far.render(), None);
    let far_order = order("A", i64::MAX, 8, "FILLED");
    assert_eq!(far_order.render().as_deref(), Some("Order 8 matched."));
    let last = transaction("A", 253402300799999, TradingType::Add, "FAILED");
    assert_eq!(last.render().as_deref(), Some("Your ADD transaction of 12.5 USDT failed at 9999-12-31 23:59:59."));
    let first = transaction("A", -62167219200000, TradingType::Add, "FAILED");
    assert_eq!(first.render().as_deref(), Some("Your ADD transaction of 12.5 USDT failed at 0000-01-01 00:00:00."));
}

#[test]
fn notif_type_names_and_titles() {
    assert_eq!(NotifType::Campaign.construct_title(), "Campaign Notification");
    assert_eq!(NotifType::Transaction.construct_title(), "Transaction Notification");
    assert_eq!(NotifType::Account.to_type_string(), "ACCOUNT");
    assert_eq!(NotifType::parse(&"ANNOUNCEMENT".to_string()), Some(NotifType::Announcement));
    assert_eq!(NotifType::parse(&"order".to_string()), None);
    assert_eq!(TradingType::Remove.to_type_string(), "REMOVE");
}

#[test]
fn preference_gates() {
    let p = NotificationPreferences { announcement: false, account: true, campaign: false, transaction: true };
    assert!(p.contains(NotifType::Order));
    assert!(p.contains(NotifType::Transaction));
    assert!(p.contains(NotifType::Account));
    assert!(!p.contains(NotifType::Announcement));
    assert!(!p.contains(NotifType::Campaign));
    assert_eq!(get_redis_preference_key(&"u1".to_string()), "raidenx:user:notification:preferences:u1");
}
