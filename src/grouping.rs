//! Grouping of a batch into (user, second, type) buckets.

use vstd::prelude::*;
use crate::notification::{allows, event_message, NotifMessage, NotifType, NotificationPreferences};
use crate::preferences::{effective_in, PreferenceCache};

verus! {

/// Identity of a coalescing bucket: user, second of the event, and type.
#[derive(Debug, Clone, PartialEq, Eq, Hash)]
pub struct NotifKey {
    pub user_id: String,
    pub second: i64,
    pub notif_type: NotifType,
}

/// A rendered message and the timestamp of the event it came from.
#[derive(Debug, Clone)]
pub struct NotificationWithTimestamp {
    pub message: String,
    pub timestamp: i64,
}

/// The mathematical value of a [`NotifKey`].
pub struct KeyView {
    pub user_id: Seq<char>,
    pub second: int,
    pub notif_type: NotifType,
}

impl View for NotifKey {
    type V = KeyView;

    open spec fn view(&self) -> KeyView {
        KeyView { user_id: self.user_id@, second: self.second as int, notif_type: self.notif_type }
    }
}

impl View for NotificationWithTimestamp {
    type V = (Seq<char>, int);

    open spec fn view(&self) -> (Seq<char>, int) {
        (self.message@, self.timestamp as int)
    }
}

/// A rendered notification: message text and timestamp.
pub type Rendered = (Seq<char>, int);

/// One entry of the grouping: its key and the rendered notifications, oldest first.
pub type GroupView = (KeyView, Seq<Rendered>);

/// The whole second of a millisecond timestamp, rounded toward zero.
pub open spec fn second_of(ts: int) -> int {
    if ts >= 0 { ts / 1000 } else { -((-ts) / 1000) }
}

/// The bucket of an event.
pub open spec fn key_of(e: NotifMessage) -> KeyView {
    KeyView { user_id: e.user_id@, second: second_of(e.timestamp as int), notif_type: e.notif_type }
}

/// Inserts `e` into `s` after every element of `s`'s tail whose timestamp is
/// not later than its own; on a sorted `s` that is after all of them, so
/// earlier arrivals stay first among equal timestamps.
pub open spec fn insert_by_time(s: Seq<NotifMessage>, e: NotifMessage) -> Seq<NotifMessage>
    decreases s.len(),
{
    if s.len() == 0 {
        seq![e]
    } else if s.last().timestamp <= e.timestamp {
        s.push(e)
    } else {
        insert_by_time(s.drop_last(), e).push(s.last())
    }
}

/// `s` sorted by timestamp, ascending and stable.
pub open spec fn sort_by_time(s: Seq<NotifMessage>) -> Seq<NotifMessage>
    decreases s.len(),
{
    if s.len() == 0 {
        s
    } else {
        insert_by_time(sort_by_time(s.drop_last()), s.last())
    }
}

/// Whether the timestamps of `s` never decrease.
pub open spec fn time_ordered(s: Seq<NotifMessage>) -> bool {
    forall|i: int, j: int| 0 <= i <= j < s.len() ==> s[i].timestamp <= s[j].timestamp
}

/// Whether event `e` is kept: its user's preferences allow its type and it renders.
pub open spec fn passes(e: NotifMessage, prefs: Seq<(Seq<char>, NotificationPreferences)>) -> bool {
    allows(effective_in(prefs, e.user_id@), e.notif_type) && event_message(e) is Some
}

/// The keyed notification an event renders to.
pub open spec fn entry_of(e: NotifMessage) -> (KeyView, Rendered) {
    (key_of(e), (event_message(e).unwrap(), e.timestamp as int))
}

/// The events of `s` that the preferences `prefs` let through and that render,
/// in order, each with its key and rendered notification.
pub open spec fn rendered_entries(
    s: Seq<NotifMessage>,
    prefs: Seq<(Seq<char>, NotificationPreferences)>,
) -> Seq<(KeyView, Rendered)>
    decreases s.len(),
{
    if s.len() == 0 {
        Seq::empty()
    } else {
        let prev = rendered_entries(s.drop_last(), prefs);
        if passes(s.last(), prefs) { prev.push(entry_of(s.last())) } else { prev }
    }
}

/// The keys of `en`, each once, in order of first appearance.
pub open spec fn distinct_keys(en: Seq<(KeyView, Rendered)>) -> Seq<KeyView>
    decreases en.len(),
{
    if en.len() == 0 {
        Seq::empty()
    } else {
        let prev = distinct_keys(en.drop_last());
        if prev.contains(en.last().0) { prev } else { prev.push(en.last().0) }
    }
}

/// The rendered notifications of `en` under key `k`, in order.
pub open spec fn messages_for(en: Seq<(KeyView, Rendered)>, k: KeyView) -> Seq<Rendered>
    decreases en.len(),
{
    if en.len() == 0 {
        Seq::empty()
    } else {
        let prev = messages_for(en.drop_last(), k);
        if en.last().0 == k { prev.push(en.last().1) } else { prev }
    }
}

/// The groups of `en`: each key once, in order of first appearance, with its
/// notifications.
pub open spec fn groups_of(en: Seq<(KeyView, Rendered)>) -> Seq<GroupView> {
    distinct_keys(en).map_values(|k: KeyView| (k, messages_for(en, k)))
}

/// What grouping `events` under the cached preferences `prefs` gives.
pub open spec fn grouping(
    events: Seq<NotifMessage>,
    prefs: Seq<(Seq<char>, NotificationPreferences)>,
) -> Seq<GroupView> {
    groups_of(rendered_entries(sort_by_time(events), prefs))
}

/// The value of a list of groups.
pub open spec fn groups_view(g: Seq<(NotifKey, Vec<NotificationWithTimestamp>)>) -> Seq<GroupView> {
    g.map_values(|x: (NotifKey, Vec<NotificationWithTimestamp>)|
        (x.0@, x.1@.map_values(|n: NotificationWithTimestamp| n@)))
}

/// The second of a millisecond timestamp, rounded toward zero.
pub fn second_of_millis(ts: i64) -> (r: i64)
    ensures
        r == second_of(ts as int),
{
    if ts >= 0 {
        ts / 1000
    } else {
        let m: u64 = (0i128 - ts as i128) as u64;
        let q: u64 = m / 1000;
        0i64 - (q as i64)
    }
}

/// The value of a list of keyed notifications.
pub open spec fn entries_view(s: Seq<(NotifKey, NotificationWithTimestamp)>) -> Seq<(KeyView, Rendered)> {
    s.map_values(|x: (NotifKey, NotificationWithTimestamp)| (x.0@, x.1@))
}

/// The values of a list of keys.
pub open spec fn keys_view(s: Seq<NotifKey>) -> Seq<KeyView> {
    s.map_values(|k: NotifKey| k@)
}

/// The values of a list of rendered notifications.
pub open spec fn rendered_view(s: Seq<NotificationWithTimestamp>) -> Seq<Rendered> {
    s.map_values(|n: NotificationWithTimestamp| n@)
}

impl NotificationWithTimestamp {
    /// A copy with the same message and timestamp.
    pub fn duplicate(&self) -> (r: NotificationWithTimestamp)
        ensures
            r@ == self@,
    {
        NotificationWithTimestamp { message: self.message.clone(), timestamp: self.timestamp }
    }
}

impl NotifKey {
    /// A copy naming the same bucket.
    pub fn duplicate(&self) -> (r: NotifKey)
        ensures
            r@ == self@,
    {
        NotifKey { user_id: self.user_id.clone(), second: self.second, notif_type: self.notif_type }
    }

    /// Whether two keys name the same bucket.
    pub fn same_as(&self, other: &NotifKey) -> (r: bool)
        ensures
            r == (self@ == other@),
    {
        self.user_id == other.user_id && self.second == other.second && self.notif_type == other.notif_type
    }
}

/// Sorts events by timestamp, ascending; events with equal timestamps keep
/// their order.
pub fn sort_by_timestamp(events: Vec<NotifMessage>) -> (r: Vec<NotifMessage>)
    ensures
        r@ == sort_by_time(events@),
{
    let ghost all = events@;
    let mut rest = events;
    let mut out: Vec<NotifMessage> = Vec::new();
    let mut i: usize = 0;
    let n = rest.len();
    while i < n
        invariant
            n == all.len(),
            i <= n,
            rest@ == all.subrange(i as int, n as int),
            out@ == sort_by_time(all.subrange(0, i as int)),
        decreases n - i,
    {
        let e = rest.remove(0);
        proof {
            assert(all.subrange(0, i + 1).drop_last() =~= all.subrange(0, i as int));
            assert(rest@ =~= all.subrange(i + 1, n as int));
        }
        insert_in_time_order(&mut out, e);
        i = i + 1;
    }
    assert(all.subrange(0, n as int) =~= all);
    out
}

/// Groups a batch of events by (user, second, type): sorts them by timestamp,
/// drops those whose type the user's preferences switch off (users that
/// `preferences` does not hold get the defaults) and those that do not render,
/// and lists each bucket once, in order of first appearance, with its
/// notifications oldest first.
pub fn group_by_user_id(events: Vec<NotifMessage>, preferences: &PreferenceCache)
    -> (r: Vec<(NotifKey, Vec<NotificationWithTimestamp>)>)
    ensures
        groups_view(r@) == grouping(events@, preferences@),
{
    let sorted = sort_by_timestamp(events);
    let entries = keyed_notifications(&sorted, preferences);
    group_entries(&entries)
}

/// The events of `sorted` that pass the preferences and render, keyed, in order.
pub fn keyed_notifications(sorted: &Vec<NotifMessage>, preferences: &PreferenceCache)
    -> (r: Vec<(NotifKey, NotificationWithTimestamp)>)
    ensures
        entries_view(r@) == rendered_entries(sorted@, preferences@),
{
    let mut r: Vec<(NotifKey, NotificationWithTimestamp)> = Vec::new();
    let mut i: usize = 0;
    assert(entries_view(r@) =~= rendered_entries(sorted@.subrange(0, 0), preferences@));
    while i < sorted.len()
        invariant
            i <= sorted@.len(),
            entries_view(r@) == rendered_entries(sorted@.subrange(0, i as int), preferences@),
        decreases sorted@.len() - i,
    {
        let e = &sorted[i];
        let ghost prev = r@;
        proof {
            assert(sorted@.subrange(0, i + 1).drop_last() =~= sorted@.subrange(0, i as int));
            assert(sorted@.subrange(0, i + 1).last() == *e);
        }
        let prefs = match preferences.get(&e.user_id) {
            Some(p) => p,
            None => NotificationPreferences::all_enabled(),
        };
        if prefs.contains(e.notif_type) {
            match e.render() {
                Some(message) => {
                    let key = NotifKey {
                        user_id: e.user_id.clone(),
                        second: second_of_millis(e.timestamp),
                        notif_type: e.notif_type,
                    };
                    r.push((key, NotificationWithTimestamp { message, timestamp: e.timestamp }));
                    assert(entries_view(r@) =~= entries_view(prev).push((key@, (message@, e.timestamp as int))));
                },
                None => {},
            }
        }
        i = i + 1;
    }
    assert(sorted@.subrange(0, sorted@.len() as int) =~= sorted@);
    r
}

/// Whether `keys` holds a key naming the same bucket as `k`.
pub fn contains_key(keys: &Vec<NotifKey>, k: &NotifKey) -> (r: bool)
    ensures
        r == keys_view(keys@).contains(k@),
{
    let mut j: usize = 0;
    while j < keys.len()
        invariant
            j <= keys@.len(),
            forall|a: int| 0 <= a < j ==> keys@[a]@ != k@,
        decreases keys@.len() - j,
    {
        if keys[j].same_as(k) {
            assert(keys_view(keys@)[j as int] == k@);
            return true;
        }
        j = j + 1;
    }
    assert(!keys_view(keys@).contains(k@));
    false
}

/// The buckets of a keyed list, each once in order of first appearance, each
/// with its notifications in order.
pub fn group_entries(entries: &Vec<(NotifKey, NotificationWithTimestamp)>)
    -> (r: Vec<(NotifKey, Vec<NotificationWithTimestamp>)>)
    ensures
        groups_view(r@) == groups_of(entries_view(entries@)),
{
    let ghost ev = entries_view(entries@);
    let mut keys: Vec<NotifKey> = Vec::new();
    let mut i: usize = 0;
    assert(keys_view(keys@) =~= distinct_keys(ev.subrange(0, 0)));
    while i < entries.len()
        invariant
            ev == entries_view(entries@),
            i <= entries@.len(),
            keys_view(keys@) == distinct_keys(ev.subrange(0, i as int)),
        decreases entries@.len() - i,
    {
        proof {
            assert(ev.subrange(0, i + 1).drop_last() =~= ev.subrange(0, i as int));
            assert(ev.subrange(0, i + 1).last() == ev[i as int]);
        }
        let k = &entries[i].0;
        if !contains_key(&keys, k) {
            let ghost prev = keys@;
            keys.push(k.duplicate());
            assert(keys_view(keys@) =~= keys_view(prev).push(k@));
        }
        i = i + 1;
    }
    assert(ev.subrange(0, ev.len() as int) =~= ev);
    let ghost dk = distinct_keys(ev);
    let mut r: Vec<(NotifKey, Vec<NotificationWithTimestamp>)> = Vec::new();
    let mut g: usize = 0;
    assert(groups_view(r@) =~= groups_of(ev).subrange(0, 0));
    while g < keys.len()
        invariant
            ev == entries_view(entries@),
            keys_view(keys@) == dk,
            dk == distinct_keys(ev),
            g <= keys@.len(),
            groups_view(r@) == groups_of(ev).subrange(0, g as int),
        decreases keys@.len() - g,
    {
        let k = &keys[g];
        let msgs = notifications_under(entries, k);
        let ghost prev = r@;
        r.push((k.duplicate(), msgs));
        proof {
            assert(keys_view(keys@)[g as int] == k@);
            assert(groups_view(r@) =~= groups_view(prev).push((k@, messages_for(ev, k@))));
            assert(groups_of(ev).subrange(0, g + 1) =~= groups_of(ev).subrange(0, g as int).push(groups_of(ev)[g as int]));
        }
        g = g + 1;
    }
    assert(groups_of(ev).subrange(0, keys@.len() as int) =~= groups_of(ev));
    r
}

/// The notifications of `entries` under key `k`, in order.
pub fn notifications_under(entries: &Vec<(NotifKey, NotificationWithTimestamp)>, k: &NotifKey)
    -> (r: Vec<NotificationWithTimestamp>)
    ensures
        rendered_view(r@) == messages_for(entries_view(entries@), k@),
{
    let ghost ev = entries_view(entries@);
    let mut r: Vec<NotificationWithTimestamp> = Vec::new();
    let mut j: usize = 0;
    assert(rendered_view(r@) =~= messages_for(ev.subrange(0, 0), k@));
    while j < entries.len()
        invariant
            ev == entries_view(entries@),
            j <= entries@.len(),
            rendered_view(r@) == messages_for(ev.subrange(0, j as int), k@),
        decreases entries@.len() - j,
    {
        proof {
            assert(ev.subrange(0, j + 1).drop_last() =~= ev.subrange(0, j as int));
            assert(ev.subrange(0, j + 1).last() == ev[j as int]);
        }
        if entries[j].0.same_as(k) {
            let ghost prev = r@;
            let n = entries[j].1.duplicate();
            r.push(n);
            assert(rendered_view(r@) =~= rendered_view(prev).push(n@));
        }
        j = j + 1;
    }
    assert(ev.subrange(0, ev.len() as int) =~= ev);
    r
}

fn insert_in_time_order(out: &mut Vec<NotifMessage>, e: NotifMessage)
    ensures
        final(out)@ == insert_by_time(old(out)@, e),
{
    let ghost s = out@;
    let mut p: usize = out.len();
    assert(s.subrange(0, p as int) =~= s);
    assert(s.subrange(p as int, s.len() as int) =~= Seq::<NotifMessage>::empty());
    while p > 0 && out[p - 1].timestamp > e.timestamp
        invariant
            out@ == s,
            p <= s.len(),
            insert_by_time(s, e) == insert_by_time(s.subrange(0, p as int), e) + s.subrange(p as int, s.len() as int),
        decreases p,
    {
        proof {
            let t = s.subrange(0, p as int);
            assert(t.drop_last() =~= s.subrange(0, p - 1));
            assert(t.last() == s[p - 1]);
            assert(insert_by_time(t, e) == insert_by_time(s.subrange(0, p - 1), e).push(s[p - 1]));
            assert(insert_by_time(s.subrange(0, p - 1), e).push(s[p - 1]) + s.subrange(p as int, s.len() as int)
                =~= insert_by_time(s.subrange(0, p - 1), e) + s.subrange(p - 1, s.len() as int));
        }
        p = p - 1;
    }
    proof {
        let t = s.subrange(0, p as int);
        if p == 0 {
            assert(insert_by_time(t, e) == seq![e]);
        } else {
            assert(t.last() == s[p - 1]);
            assert(insert_by_time(t, e) == t.push(e));
        }
        assert(insert_by_time(t, e) + s.subrange(p as int, s.len() as int) =~= s.insert(p as int, e));
    }
    out.insert(p, e);
}

} // verus!
