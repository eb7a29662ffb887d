//! The pushes the publisher worker sends for a grouped batch, and the
//! per-device rate limiting with its digest fallback.

use vstd::prelude::*;
use crate::consumer::{topic_name, KafkaTopic};
use crate::notification::NotifMessage;
use crate::preferences::PreferenceCache;
use crate::grouping::{group_by_user_id, grouping, groups_view, GroupView, NotifKey, NotificationWithTimestamp};
use crate::notification::{notif_title, OrderNotifBuilder};
use crate::text::{concat3, decimal, decimal_text};

verus! {

/// Default width of the per-device rate window, in milliseconds.
pub const RATE_LIMIT_WINDOW_MS: i64 = 2000;

/// Lifetime of a device's unsent counter in the key-value store, in seconds.
pub const UNSENT_COUNT_TTL_SECS: u64 = 86400;

/// How many pushes may be in flight at once within one batch.
pub const FCM_SEND_CONCURRENCY: usize = 8;

/// How many times a push is attempted before it is given up.
pub const FCM_RETRY_ATTEMPTS: usize = 3;

/// First retry delay, in milliseconds.
pub const FCM_RETRY_INITIAL_DELAY_MS: u64 = 100;

/// Longest retry delay, in milliseconds.
pub const FCM_RETRY_MAX_DELAY_MS: u64 = 5000;

/// Per-device bookkeeping kept in the key-value store: when the last push
/// went out (absent once its entry expired) and how many were held back since.
#[derive(Debug, Clone, Copy, PartialEq, Eq, Structural)]
pub struct RateLimitEntry {
    pub last_sent: Option<i64>,
    pub unsent_count: i64,
}

/// What to do for one device.
#[derive(Debug)]
pub enum DispatchDecision {
    /// Inside the rate window: no push; the unsent counter goes up.
    Throttled,
    /// Push with this title and body.
    Send { title: String, body: String },
}

/// Whether a push may go out at `now` to a device last served at `last`.
pub open spec fn allowed_at(last: Option<i64>, now: int, window: int) -> bool {
    match last {
        None => true,
        Some(t) => now - t >= window,
    }
}

/// The counter after one more held-back push (it stops at the largest `i64`).
pub open spec fn bumped(e: RateLimitEntry) -> RateLimitEntry {
    RateLimitEntry {
        last_sent: e.last_sent,
        unsent_count: if e.unsent_count < i64::MAX { (e.unsent_count + 1) as i64 } else { e.unsent_count },
    }
}

/// The bookkeeping after a successful push at `now`.
pub open spec fn served(now: i64) -> RateLimitEntry {
    RateLimitEntry { last_sent: Some(now), unsent_count: 0 }
}

/// Title of the digest push.
pub open spec fn digest_title() -> Seq<char> {
    "You have many notifications"@
}

/// Body of the digest push for `n` held-back notifications.
pub open spec fn digest_body(n: nat) -> Seq<char> {
    "You have "@ + decimal(n) + " unread notifications. Please check your app."@
}

/// One attempt at a device at `now`, whose push is `delivered` or not if it
/// goes out: whether a push was sent, and the bookkeeping after it.
pub open spec fn dispatch_step(e: RateLimitEntry, now: i64, window: int, delivered: bool) -> (bool, RateLimitEntry) {
    if allowed_at(e.last_sent, now as int, window) {
        if delivered { (true, served(now)) } else { (false, e) }
    } else {
        (false, bumped(e))
    }
}

/// The times of the pushes that went out over a run of attempts.
pub open spec fn send_times(e: RateLimitEntry, attempts: Seq<(i64, bool)>, window: int) -> Seq<int>
    decreases attempts.len(),
{
    if attempts.len() == 0 {
        Seq::empty()
    } else {
        let (sent, next) = dispatch_step(e, attempts[0].0, window, attempts[0].1);
        let rest = send_times(next, attempts.drop_first(), window);
        if sent { seq![attempts[0].0 as int] + rest } else { rest }
    }
}

/// Key prefix of the per-device entries in the key-value store.
pub open spec fn notification_key_prefix() -> Seq<char> {
    "raidenx:notification:"@
}

/// The key under which a device's last push time is kept.
pub fn last_sent_key(token: &String) -> (r: String)
    ensures
        r@ == notification_key_prefix() + token@ + ":last_sent"@,
{
    concat3("raidenx:notification:", token, ":last_sent")
}

/// The key under which a device's unsent counter is kept.
pub fn unsent_count_key(token: &String) -> (r: String)
    ensures
        r@ == notification_key_prefix() + token@ + ":unsent_count"@,
{
    concat3("raidenx:notification:", token, ":unsent_count")
}

/// Whether a device last served at `last_sent` may get a push at `now`.
pub fn can_send_notification(last_sent: Option<i64>, now: i64, window_ms: i64) -> (r: bool)
    ensures
        r == allowed_at(last_sent, now as int, window_ms as int),
{
    match last_sent {
        None => true,
        Some(t) => (now as i128) - (t as i128) >= window_ms as i128,
    }
}

/// The digest body for `n` held-back notifications.
pub fn digest_message(n: u64) -> (r: String)
    ensures
        r@ == digest_body(n as nat),
{
    concat3("You have ", &decimal_text(n), " unread notifications. Please check your app.")
}

/// Decides the push to one device at `now`: inside the rate window nothing
/// goes out and the counter is bumped; otherwise the push goes out, as a
/// digest where more than one was held back, else with `title` and `body`.
/// The returned entry is the bookkeeping to store when no push goes out;
/// after a push, [`record_send_outcome`] gives it.
pub fn decide_dispatch(entry: RateLimitEntry, now: i64, window_ms: i64, title: &String, body: &String)
    -> (r: (DispatchDecision, RateLimitEntry))
    ensures
        allowed_at(entry.last_sent, now as int, window_ms as int) ==> r.1 == entry && match r.0 {
            DispatchDecision::Send { title: t, body: b } =>
                if entry.unsent_count > 1 {
                    t@ == digest_title() && b@ == digest_body(entry.unsent_count as nat)
                } else {
                    t@ == title@ && b@ == body@
                },
            DispatchDecision::Throttled => false,
        },
        !allowed_at(entry.last_sent, now as int, window_ms as int) ==>
            r.0 is Throttled && r.1 == bumped(entry),
{
    if can_send_notification(entry.last_sent, now, window_ms) {
        if entry.unsent_count > 1 {
            let t = String::from_str("You have many notifications");
            let b = digest_message(entry.unsent_count as u64);
            (DispatchDecision::Send { title: t, body: b }, entry)
        } else {
            (DispatchDecision::Send { title: title.clone(), body: body.clone() }, entry)
        }
    } else {
        let count = if entry.unsent_count < i64::MAX { entry.unsent_count + 1 } else { entry.unsent_count };
        (DispatchDecision::Throttled, RateLimitEntry { last_sent: entry.last_sent, unsent_count: count })
    }
}

/// The bookkeeping after a push at `now` went out: on success the send time is
/// recorded and the counter cleared; after a final failure nothing changes.
pub fn record_send_outcome(entry: RateLimitEntry, now: i64, delivered: bool) -> (r: RateLimitEntry)
    ensures
        r == if delivered { served(now) } else { entry },
{
    if delivered {
        RateLimitEntry { last_sent: Some(now), unsent_count: 0 }
    } else {
        entry
    }
}

/// The push one group yields: to its user, with its type's title and the
/// message of its newest notification; none for an empty group.
pub open spec fn group_push(g: GroupView) -> Seq<(Seq<char>, Seq<char>, Seq<char>)> {
    if g.1.len() > 0 {
        seq![(notif_title(g.0.notif_type), g.0.user_id, g.1.last().0)]
    } else {
        Seq::empty()
    }
}

/// The pushes a whole grouping yields, group after group.
pub open spec fn publish_plan(gs: Seq<GroupView>) -> Seq<(Seq<char>, Seq<char>, Seq<char>)>
    decreases gs.len(),
{
    if gs.len() == 0 {
        Seq::empty()
    } else {
        publish_plan(gs.drop_last()) + group_push(gs.last())
    }
}

/// The values of a list of (title, push) pairs.
pub open spec fn pushes_view(s: Seq<(String, OrderNotifBuilder)>) -> Seq<(Seq<char>, Seq<char>, Seq<char>)> {
    s.map_values(|p: (String, OrderNotifBuilder)| (p.0@, p.1.user_id@, p.1.message@))
}

/// The pushes to make for a grouped batch: one per group, carrying the
/// newest notification, each with its title.
pub fn plan_pushes(groups: &Vec<(NotifKey, Vec<NotificationWithTimestamp>)>) -> (r: Vec<(String, OrderNotifBuilder)>)
    ensures
        pushes_view(r@) == publish_plan(groups_view(groups@)),
{
    let ghost gv = groups_view(groups@);
    let mut r: Vec<(String, OrderNotifBuilder)> = Vec::new();
    let mut g: usize = 0;
    assert(pushes_view(r@) =~= publish_plan(gv.subrange(0, 0)));
    while g < groups.len()
        invariant
            gv == groups_view(groups@),
            g <= groups@.len(),
            pushes_view(r@) == publish_plan(gv.subrange(0, g as int)),
        decreases groups@.len() - g,
    {
        let key = &groups[g].0;
        let list = &groups[g].1;
        let ghost before = pushes_view(r@);
        proof {
            assert(gv.subrange(0, g + 1).drop_last() =~= gv.subrange(0, g as int));
            assert(gv.subrange(0, g + 1).last() == gv[g as int]);
        }
        if list.len() > 0 {
            let last = &list[list.len() - 1];
            let push = OrderNotifBuilder { user_id: key.user_id.clone(), message: last.message.clone() };
            r.push((key.notif_type.construct_title(), push));
        }
        assert(pushes_view(r@) =~= before + group_push(gv[g as int]));
        g = g + 1;
    }
    assert(gv.subrange(0, gv.len() as int) =~= gv);
    r
}

/// No two pushes to one device go out within the rate window: over any run of
/// attempts at non-decreasing times, every two send times lie at least
/// `window` apart, and the first lies at least `window` after the device's
/// previous push.
pub proof fn lemma_rate_limit_safety(e: RateLimitEntry, attempts: Seq<(i64, bool)>, window: int)
    requires
        window >= 0,
        forall|i: int, j: int| 0 <= i <= j < attempts.len() ==> attempts[i].0 <= attempts[j].0,
    ensures
        forall|i: int, j: int| 0 <= i < j < send_times(e, attempts, window).len() ==>
            send_times(e, attempts, window)[j] - send_times(e, attempts, window)[i] >= window,
        forall|i: int| 0 <= i < send_times(e, attempts, window).len() ==>
            allowed_at(e.last_sent, send_times(e, attempts, window)[i], window),
    decreases attempts.len(),
{
    if attempts.len() > 0 {
        let (sent, next) = dispatch_step(e, attempts[0].0, window, attempts[0].1);
        let tail = attempts.drop_first();
        assert forall|i: int, j: int| 0 <= i <= j < tail.len() implies tail[i].0 <= tail[j].0 by {
            assert(tail[i] == attempts[i + 1] && tail[j] == attempts[j + 1]);
        }
        lemma_rate_limit_safety(next, tail, window);
        let rest = send_times(next, tail, window);
        let all = send_times(e, attempts, window);
        assert forall|i: int| 0 <= i < rest.len() implies rest[i] >= attempts[0].0 as int by {
            lemma_send_times_from(next, tail, window, i);
            let k = choose|k: int| 0 <= k < tail.len() && rest[i] == tail[k].0 as int;
            assert(tail[k] == attempts[k + 1]);
        }
        if sent {
            assert(all == seq![attempts[0].0 as int] + rest);
            assert forall|i: int| 0 <= i < all.len() implies allowed_at(e.last_sent, all[i], window) by {
                if i > 0 {
                    assert(all[i] == rest[i - 1]);
                    assert(allowed_at(next.last_sent, rest[i - 1], window));
                }
            }
        } else {
            assert(all == rest);
            assert(next.last_sent == e.last_sent);
        }
    }
}

/// Every send time is the time of one of the attempts.
proof fn lemma_send_times_from(e: RateLimitEntry, attempts: Seq<(i64, bool)>, window: int, i: int)
    requires
        0 <= i < send_times(e, attempts, window).len(),
    ensures
        exists|k: int| 0 <= k < attempts.len() && send_times(e, attempts, window)[i] == attempts[k].0 as int,
    decreases attempts.len(),
{
    let (sent, next) = dispatch_step(e, attempts[0].0, window, attempts[0].1);
    let tail = attempts.drop_first();
    let rest = send_times(next, tail, window);
    if sent && i == 0 {
        assert(send_times(e, attempts, window)[0] == attempts[0].0 as int);
    } else {
        let i2 = if sent { i - 1 } else { i };
        if sent {
            assert(send_times(e, attempts, window)[i] == rest[i2]);
        }
        lemma_send_times_from(next, tail, window, i2);
        let k = choose|k: int| 0 <= k < tail.len() && rest[i2] == tail[k].0 as int;
        assert(tail[k] == attempts[k + 1]);
    }
}

} // verus!

verus! {

/// The worker that pushes notifications for the publisher topic.
pub struct NotificationPublishConsumer;

impl NotificationPublishConsumer {
    /// The topic this worker consumes.
    pub fn topic() -> (r: String)
        ensures
            r@ == topic_name(KafkaTopic::UserNotificationPublisher),
    {
        KafkaTopic::UserNotificationPublisher.name()
    }

    /// The pushes to make for one batch of events, given the cached
    /// preferences of its users: one per group, with the group's newest
    /// message; none for an empty batch.
    pub fn handle_batch(events: Vec<NotifMessage>, preferences: &PreferenceCache) -> (r: Vec<(String, OrderNotifBuilder)>)
        ensures
            pushes_view(r@) == publish_plan(grouping(events@, preferences@)),
    {
        let groups = group_by_user_id(events, preferences);
        plan_pushes(&groups)
    }
}

} // verus!
