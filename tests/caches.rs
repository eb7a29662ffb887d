use push_notify_service::fcm_tokens::{
    update_fcm_token_channel_name, DeviceToken, FcmTokenCache, UpdateFcmToken, UpdateFcmTokenAction,
    UserFcmTokenStatus,
};
use push_notify_service::notification::NotificationPreferences;
use push_notify_service::preferences::PreferenceCache;

fn prefs(t: bool) -> NotificationPreferences {
    NotificationPreferences { announcement: true, account: true, campaign: true, transaction: t }
}

fn row(user: &str, token: &str, status: UserFcmTokenStatus) -> DeviceToken {
    DeviceToken {
        user_id: user.to_string(),
        device_id: format!("dev-{token}"),
        token: token.to_string(),
        platform: Some("ios".to_string()),
        status,
    }
}

#[test]
fn preference_preload_twice_is_the_same() {
    let records = vec![("a".to_string(), prefs(false)), ("b".to_string(), prefs(true)), ("a".to_string(), prefs(true))];
    let mut cache = PreferenceCache::new();
    cache.update(&"z".to_string(), prefs(false));
    assert!(cache.preload(&records));
    let once: Vec<_> = ["a", "b", "z"].iter().map(|u| cache.get(&u.to_string())).collect();
    assert!(cache.preload(&records));
    let twice: Vec<_> = ["a", "b", "z"].iter().map(|u| cache.get(&u.to_string())).collect();
    assert_eq!(once, twice);
    assert_eq!(once, vec![Some(prefs(true)), Some(prefs(true)), None]);
}

#[test]
fn preference_preload_reports_an_empty_scan() {
    let mut cache = PreferenceCache::new();
    assert!(!cache.preload(&vec![]));
}

#[test]
fn preference_settle_caches_hits_and_defaults() {
    let mut cache = PreferenceCache::new();
    let u = "u".to_string();
    assert_eq!(cache.settle(&u, None), prefs(true));
    assert_eq!(cache.get(&u), Some(prefs(true)));
    assert_eq!(cache.users_to_fetch(&vec![u.clone()]), Vec::<String>::new());
    assert_eq!(cache.settle(&u, Some(prefs(false))), prefs(false));
    assert_eq!(cache.get(&u), Some(prefs(false)));
    cache.update(&u, prefs(true));
    assert_eq!(cache.get(&u), Some(prefs(true)));
}

#[test]
fn users_to_fetch_are_distinct_and_uncached() {
    let mut cache = PreferenceCache::new();
    cache.update(&"b".to_string(), prefs(true));
    let ids: Vec<String> = ["a", "b", "a", "c", "c"].iter().map(|s| s.to_string()).collect();
    assert_eq!(cache.users_to_fetch(&ids), vec!["a".to_string(), "c".to_string()]);
}

#[test]
fn token_preload_keeps_active_and_is_idempotent() {
    let rows = vec![
        row("u1", "t1", UserFcmTokenStatus::Active),
        row("u1", "t2", UserFcmTokenStatus::Inactive),
        row("u2", "t3", UserFcmTokenStatus::Active),
        row("u1", "t4", UserFcmTokenStatus::Active),
        row("u3", "t5", UserFcmTokenStatus::Inactive),
    ];
    let mut cache = FcmTokenCache::new();
    cache.preload(&rows);
    let once: Vec<_> = ["u1", "u2", "u3"].iter().map(|u| cache.get(&u.to_string())).collect();
    cache.preload(&rows);
    let twice: Vec<_> = ["u1", "u2", "u3"].iter().map(|u| cache.get(&u.to_string())).collect();
    assert_eq!(once, twice);
    assert_eq!(once[0], Some(vec!["t1".to_string(), "t4".to_string()]));
    assert_eq!(once[1], Some(vec!["t3".to_string()]));
    assert_eq!(once[2], None);
}

#[test]
fn token_fill_caches_even_empty() {
    let mut cache = FcmTokenCache::new();
    let u = "u".to_string();
    let got = cache.fill(&u, &vec![row("u", "x", UserFcmTokenStatus::Inactive)]);
    assert!(got.is_empty());
    assert_eq!(cache.get(&u), Some(vec![]));
    let got = cache.fill(&u, &vec![row("u", "y", UserFcmTokenStatus::Active)]);
    assert_eq!(got, vec!["y".to_string()]);
}

#[test]
fn token_updates_add_once_and_prune() {
    let mut cache = FcmTokenCache::new();
    let add = |t: &str| UpdateFcmToken { user_id: "u".to_string(), token: t.to_string(), action: UpdateFcmTokenAction::Add };
    let remove = |t: &str| UpdateFcmToken { user_id: "u".to_string(), token: t.to_string(), action: UpdateFcmTokenAction::Remove };
    cache.apply(&add("a"));
    cache.apply(&add("b"));
    cache.apply(&add("a"));
    assert_eq!(cache.get(&"u".to_string()), Some(vec!["a".to_string(), "b".to_string()]));
    cache.apply(&remove("a"));
    assert_eq!(cache.get(&"u".to_string()), Some(vec!["b".to_string()]));
    cache.apply(&remove("b"));
    assert_eq!(cache.get(&"u".to_string()), None);
    cache.apply(&remove("b"));
    assert_eq!(cache.get(&"u".to_string()), None);
    assert_eq!(update_fcm_token_channel_name(), "vdax:notification:update_fcm_token");
    assert_eq!(UserFcmTokenStatus::Inactive.to_status_string(), "INACTIVE");
}
