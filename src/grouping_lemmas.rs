//! Properties of grouping and of the rows planned from it.

use vstd::prelude::*;
use crate::grouping::{
    distinct_keys, entry_of, groups_of, grouping, insert_by_time, key_of, messages_for, passes,
    rendered_entries, sort_by_time, time_ordered, KeyView, Rendered,
};
use crate::notification::{allows, NotifMessage, NotifType, NotificationPreferences};
use crate::persister::{group_records, persist_plan, record_for, RecordView};
use crate::grouping::GroupView;
use crate::preferences::effective_in;

verus! {

/// Whether the timestamps of keyed notifications never decrease.
pub open spec fn entries_time_ordered(en: Seq<(KeyView, Rendered)>) -> bool {
    forall|i: int, j: int| 0 <= i <= j < en.len() ==> en[i].1.1 <= en[j].1.1
}

/// Whether the timestamps of rendered notifications never decrease.
pub open spec fn rendered_time_ordered(ms: Seq<Rendered>) -> bool {
    forall|i: int, j: int| 0 <= i <= j < ms.len() ==> ms[i].1 <= ms[j].1
}

proof fn lemma_insert_by_time(s: Seq<NotifMessage>, e: NotifMessage)
    ensures
        insert_by_time(s, e).contains(e),
        forall|x: NotifMessage| s.contains(x) ==> #[trigger] insert_by_time(s, e).contains(x),
        time_ordered(s) ==> time_ordered(insert_by_time(s, e)),
        forall|i: int| 0 <= i < insert_by_time(s, e).len() ==>
            insert_by_time(s, e)[i] == e || s.contains(#[trigger] insert_by_time(s, e)[i]),
    decreases s.len(),
{
    let r = insert_by_time(s, e);
    if s.len() == 0 {
        assert(r[0] == e);
    } else if s.last().timestamp <= e.timestamp {
        assert(r == s.push(e));
        assert(r[s.len() as int] == e);
        assert forall|x: NotifMessage| s.contains(x) implies r.contains(x) by {
            let k = choose|k: int| 0 <= k < s.len() && s[k] == x;
            assert(r[k] == x);
        }
        assert forall|i: int| 0 <= i < r.len() implies r[i] == e || s.contains(#[trigger] r[i]) by {
            if i < s.len() { assert(s[i] == r[i]); }
        }
        if time_ordered(s) {
            assert forall|i: int, j: int| 0 <= i <= j < r.len() implies r[i].timestamp <= r[j].timestamp by {
                if j == s.len() as int && i < j {
                    assert(s[i].timestamp <= s.last().timestamp);
                }
            }
        }
    } else {
        let d = s.drop_last();
        let t = insert_by_time(d, e);
        lemma_insert_by_time(d, e);
        assert(r == t.push(s.last()));
        let ke = choose|k: int| 0 <= k < t.len() && t[k] == e;
        assert(r[ke] == e);
        assert forall|x: NotifMessage| s.contains(x) implies r.contains(x) by {
            let k = choose|k: int| 0 <= k < s.len() && s[k] == x;
            if k == s.len() - 1 {
                assert(r[t.len() as int] == x);
            } else {
                assert(d[k] == x);
                assert(d.contains(x));
                assert(t.contains(x));
                let k2 = choose|k2: int| 0 <= k2 < t.len() && t[k2] == x;
                assert(r[k2] == x);
            }
        }
        assert forall|i: int| 0 <= i < r.len() implies r[i] == e || s.contains(#[trigger] r[i]) by {
            if i < t.len() {
                assert(r[i] == t[i]);
                if t[i] != e {
                    assert(d.contains(t[i]));
                    let k = choose|k: int| 0 <= k < d.len() && d[k] == t[i];
                    assert(s[k] == t[i]);
                }
            } else {
                assert(r[i] == s[s.len() - 1]);
            }
        }
        if time_ordered(s) {
            assert(time_ordered(d)) by {
                assert forall|i: int, j: int| 0 <= i <= j < d.len() implies d[i].timestamp <= d[j].timestamp by {
                    assert(d[i] == s[i] && d[j] == s[j]);
                }
            }
            assert forall|i: int, j: int| 0 <= i <= j < r.len() implies r[i].timestamp <= r[j].timestamp by {
                if j == t.len() as int && i < j {
                    assert(r[i] == t[i]);
                    if t[i] == e {
                    } else {
                        assert(d.contains(t[i]));
                        let k = choose|k: int| 0 <= k < d.len() && d[k] == t[i];
                        assert(s[k] == d[k]);
                    }
                } else if j < t.len() {
                    assert(r[i] == t[i] && r[j] == t[j]);
                }
            }
        }
    }
}

/// Sorting keeps every event and orders them by timestamp.
pub proof fn lemma_sort_by_time(s: Seq<NotifMessage>)
    ensures
        time_ordered(sort_by_time(s)),
        forall|x: NotifMessage| s.contains(x) ==> #[trigger] sort_by_time(s).contains(x),
        forall|i: int| 0 <= i < sort_by_time(s).len() ==> s.contains(#[trigger] sort_by_time(s)[i]),
    decreases s.len(),
{
    if s.len() > 0 {
        let d = s.drop_last();
        lemma_sort_by_time(d);
        lemma_insert_by_time(sort_by_time(d), s.last());
        let r = sort_by_time(s);
        assert forall|i: int| 0 <= i < r.len() implies s.contains(#[trigger] r[i]) by {
            if r[i] == s.last() {
                assert(s[s.len() - 1] == r[i]);
            } else {
                let k = choose|k: int| 0 <= k < sort_by_time(d).len() && sort_by_time(d)[k] == r[i];
                assert(d.contains(r[i]));
                let m = choose|m: int| 0 <= m < d.len() && d[m] == r[i];
                assert(s[m] == r[i]);
            }
        }
        assert forall|x: NotifMessage| s.contains(x) implies #[trigger] sort_by_time(s).contains(x) by {
            let k = choose|k: int| 0 <= k < s.len() && s[k] == x;
            if k < s.len() - 1 {
                assert(d[k] == x);
                assert(d.contains(x));
            }
        }
    }
}

/// Each kept event of `s` has its keyed notification among the entries; each
/// entry is that of a kept event; on time-ordered events the entries are
/// time-ordered.
proof fn lemma_rendered_entries(s: Seq<NotifMessage>, prefs: Seq<(Seq<char>, NotificationPreferences)>)
    ensures
        forall|x: NotifMessage| s.contains(x) && passes(x, prefs) ==>
            #[trigger] rendered_entries(s, prefs).contains(entry_of(x)),
        time_ordered(s) ==> entries_time_ordered(rendered_entries(s, prefs)),
    decreases s.len(),
{
    if s.len() > 0 {
        let d = s.drop_last();
        let prev = rendered_entries(d, prefs);
        let en = rendered_entries(s, prefs);
        lemma_rendered_entries(d, prefs);
        assert forall|x: NotifMessage| s.contains(x) && passes(x, prefs) implies #[trigger] en.contains(entry_of(x)) by {
            let k = choose|k: int| 0 <= k < s.len() && s[k] == x;
            if k == s.len() - 1 {
                assert(en[en.len() - 1] == entry_of(x));
            } else {
                assert(d[k] == x);
                assert(d.contains(x));
                assert(prev.contains(entry_of(x)));
                let k2 = choose|k2: int| 0 <= k2 < prev.len() && prev[k2] == entry_of(x);
                assert(en[k2] == entry_of(x));
            }
        }
        if time_ordered(s) {
            assert(time_ordered(d)) by {
                assert forall|i: int, j: int| 0 <= i <= j < d.len() implies d[i].timestamp <= d[j].timestamp by {
                    assert(d[i] == s[i] && d[j] == s[j]);
                }
            }
            lemma_entry_origin(d, prefs);
            assert forall|i: int, j: int| 0 <= i <= j < en.len() implies en[i].1.1 <= en[j].1.1 by {
                if j >= prev.len() && i < j {
                    assert(en[i] == prev[i]);
                    assert(entry_from(d, prefs, prev[i]));
                    let m = choose|m: int| 0 <= m < d.len() && passes(d[m], prefs) && prev[i] == entry_of(d[m]);
                    assert(s[m] == d[m]);
                    assert(s[m].timestamp <= s[s.len() - 1].timestamp);
                } else if j < prev.len() {
                    assert(en[i] == prev[i] && en[j] == prev[j]);
                }
            }
        }
    } else {
        assert(rendered_entries(s, prefs).len() == 0);
    }
}

/// Whether `x` is the keyed notification of a kept event of `s`.
pub open spec fn entry_from(s: Seq<NotifMessage>, prefs: Seq<(Seq<char>, NotificationPreferences)>, x: (KeyView, Rendered)) -> bool {
    exists|m: int| 0 <= m < s.len() && passes(s[m], prefs) && x == entry_of(s[m])
}

/// Each entry is the keyed notification of a kept event.
proof fn lemma_entry_origin(s: Seq<NotifMessage>, prefs: Seq<(Seq<char>, NotificationPreferences)>)
    ensures
        forall|j: int| 0 <= j < rendered_entries(s, prefs).len() ==>
            entry_from(s, prefs, #[trigger] rendered_entries(s, prefs)[j]),
    decreases s.len(),
{
    if s.len() > 0 {
        let d = s.drop_last();
        let prev = rendered_entries(d, prefs);
        let en = rendered_entries(s, prefs);
        lemma_entry_origin(d, prefs);
        assert forall|j: int| 0 <= j < en.len() implies entry_from(s, prefs, #[trigger] en[j]) by {
            if j < prev.len() {
                assert(en[j] == prev[j]);
                assert(entry_from(d, prefs, prev[j]));
                let m = choose|m: int| 0 <= m < d.len() && passes(d[m], prefs) && prev[j] == entry_of(d[m]);
                assert(s[m] == d[m]);
            } else {
                assert(en[j] == entry_of(s[s.len() - 1]));
            }
        }
    }
}

/// Whether `x` is the notification of an entry of `en` under `k`.
pub open spec fn message_from(en: Seq<(KeyView, Rendered)>, k: KeyView, x: Rendered) -> bool {
    exists|m: int| 0 <= m < en.len() && en[m].0 == k && x == en[m].1
}

/// The notifications under `k` are those of the entries under `k`, in order.
proof fn lemma_messages_for(en: Seq<(KeyView, Rendered)>, k: KeyView)
    ensures
        forall|j: int| 0 <= j < en.len() && en[j].0 == k ==> #[trigger] messages_for(en, k).contains(en[j].1),
        forall|j: int| 0 <= j < messages_for(en, k).len() ==> message_from(en, k, #[trigger] messages_for(en, k)[j]),
        entries_time_ordered(en) ==> rendered_time_ordered(messages_for(en, k)),
    decreases en.len(),
{
    if en.len() > 0 {
        let d = en.drop_last();
        let prev = messages_for(d, k);
        let ms = messages_for(en, k);
        lemma_messages_for(d, k);
        assert forall|j: int| 0 <= j < en.len() && en[j].0 == k implies #[trigger] ms.contains(en[j].1) by {
            if j == en.len() - 1 {
                assert(ms[ms.len() - 1] == en[j].1);
            } else {
                assert(d[j] == en[j]);
                assert(prev.contains(d[j].1));
                let k2 = choose|k2: int| 0 <= k2 < prev.len() && prev[k2] == d[j].1;
                assert(ms[k2] == en[j].1);
            }
        }
        assert forall|j: int| 0 <= j < ms.len() implies message_from(en, k, #[trigger] ms[j]) by {
            if j < prev.len() {
                assert(ms[j] == prev[j]);
                assert(message_from(d, k, prev[j]));
                let m = choose|m: int| 0 <= m < d.len() && d[m].0 == k && prev[j] == d[m].1;
                assert(en[m] == d[m]);
            } else {
                assert(ms[j] == en[en.len() - 1].1);
            }
        }
        if entries_time_ordered(en) {
            assert(entries_time_ordered(d)) by {
                assert forall|i: int, j: int| 0 <= i <= j < d.len() implies d[i].1.1 <= d[j].1.1 by {
                    assert(d[i] == en[i] && d[j] == en[j]);
                }
            }
            assert forall|i: int, j: int| 0 <= i <= j < ms.len() implies ms[i].1 <= ms[j].1 by {
                if j >= prev.len() && i < j {
                    assert(ms[i] == prev[i]);
                    assert(message_from(d, k, prev[i]));
                    let m = choose|m: int| 0 <= m < d.len() && d[m].0 == k && prev[i] == d[m].1;
                    assert(en[m] == d[m]);
                } else if j < prev.len() {
                    assert(ms[i] == prev[i] && ms[j] == prev[j]);
                }
            }
        }
    }
}

/// Every key listed is the key of some entry.
proof fn lemma_distinct_keys(en: Seq<(KeyView, Rendered)>)
    ensures
        forall|i: int| 0 <= i < distinct_keys(en).len() ==>
            exists|m: int| 0 <= m < en.len() && en[m].0 == #[trigger] distinct_keys(en)[i],
    decreases en.len(),
{
    if en.len() > 0 {
        let d = en.drop_last();
        lemma_distinct_keys(d);
        let prev = distinct_keys(d);
        let dk = distinct_keys(en);
        assert forall|i: int| 0 <= i < dk.len() implies
            exists|m: int| 0 <= m < en.len() && en[m].0 == #[trigger] dk[i] by {
            if i < prev.len() {
                assert(dk[i] == prev[i]);
                let m = choose|m: int| 0 <= m < d.len() && d[m].0 == prev[i];
                assert(en[m] == d[m]);
            } else {
                assert(dk[i] == en[en.len() - 1].0);
            }
        }
    }
}

/// No key is listed twice.
pub proof fn lemma_distinct_keys_unique(en: Seq<(KeyView, Rendered)>)
    ensures
        distinct_keys(en).no_duplicates(),
    decreases en.len(),
{
    if en.len() > 0 {
        let d = en.drop_last();
        lemma_distinct_keys_unique(d);
        let prev = distinct_keys(d);
        if !prev.contains(en.last().0) {
            let dk = distinct_keys(en);
            assert(dk == prev.push(en.last().0));
            assert forall|a: int, b: int| 0 <= a < dk.len() && 0 <= b < dk.len() && a != b implies dk[a] != dk[b] by {
                if a < prev.len() && b < prev.len() {
                    assert(dk[a] == prev[a] && dk[b] == prev[b]);
                } else if a < prev.len() {
                    assert(dk[a] == prev[a]);
                } else if b < prev.len() {
                    assert(dk[b] == prev[b]);
                }
            }
        }
    }
}

/// A user who switched a type off gets no group of that type: grouping any
/// batch yields no bucket of user `u` and type `t` when `u`'s preferences
/// in force disallow `t`.
pub proof fn lemma_preference_filtering(
    events: Seq<NotifMessage>,
    prefs: Seq<(Seq<char>, NotificationPreferences)>,
    u: Seq<char>,
    t: NotifType,
)
    requires
        !allows(effective_in(prefs, u), t),
    ensures
        forall|i: int| 0 <= i < grouping(events, prefs).len() ==>
            !(#[trigger] grouping(events, prefs)[i].0.user_id == u && grouping(events, prefs)[i].0.notif_type == t),
{
    let en = rendered_entries(sort_by_time(events), prefs);
    lemma_rendered_entries(sort_by_time(events), prefs);
    lemma_entry_origin(sort_by_time(events), prefs);
    lemma_distinct_keys(en);
    let s = sort_by_time(events);
    assert forall|i: int| 0 <= i < grouping(events, prefs).len() implies
        !(#[trigger] grouping(events, prefs)[i].0.user_id == u && grouping(events, prefs)[i].0.notif_type == t) by {
        let k = distinct_keys(en)[i];
        assert(grouping(events, prefs)[i].0 == k);
        let m = choose|m: int| 0 <= m < en.len() && en[m].0 == k;
        assert(entry_from(s, prefs, en[m]));
        let e = choose|e: int| 0 <= e < s.len() && passes(s[e], prefs) && en[m] == entry_of(s[e]);
        assert(key_of(s[e]) == k);
    }
}

/// Order events coalesce to their newest: a bucket of type `Order` is the
/// only group with its key and yields exactly one row, carrying the message and timestamp of the last of its
/// notifications; that notification is the rendering of an event of the
/// batch in the bucket, and no kept event of the bucket is newer.
pub proof fn lemma_order_coalescing(
    events: Seq<NotifMessage>,
    prefs: Seq<(Seq<char>, NotificationPreferences)>,
    i: int,
)
    requires
        0 <= i < grouping(events, prefs).len(),
        grouping(events, prefs)[i].0.notif_type == NotifType::Order,
    ensures
        ({
            let g = grouping(events, prefs)[i];
            &&& g.1.len() > 0
            &&& group_records(g) == seq![record_for(g.0, g.1.last())]
            &&& forall|j: int| 0 <= j < grouping(events, prefs).len() && j != i ==>
                    #[trigger] grouping(events, prefs)[j].0 != g.0
            &&& exists|e: NotifMessage| #[trigger] events.contains(e) && passes(e, prefs) && entry_of(e) == (g.0, g.1.last())
            &&& forall|e: NotifMessage| #[trigger] events.contains(e) && passes(e, prefs) && key_of(e) == g.0
                    ==> e.timestamp <= g.1.last().1
        }),
{
    let s = sort_by_time(events);
    let en = rendered_entries(s, prefs);
    let g = grouping(events, prefs)[i];
    let k = distinct_keys(en)[i];
    assert(g == (k, messages_for(en, k)));
    lemma_sort_by_time(events);
    lemma_rendered_entries(s, prefs);
    lemma_entry_origin(s, prefs);
    lemma_distinct_keys(en);
    lemma_messages_for(en, k);
    lemma_distinct_keys_unique(en);
    assert forall|j: int| 0 <= j < grouping(events, prefs).len() && j != i implies
        #[trigger] grouping(events, prefs)[j].0 != g.0 by {
        assert(grouping(events, prefs)[j].0 == distinct_keys(en)[j]);
    }
    let ms = messages_for(en, k);
    let m0 = choose|m: int| 0 <= m < en.len() && en[m].0 == k;
    assert(ms.contains(en[m0].1));
    assert(ms.len() > 0);
    let last = ms.last();
    assert(ms[ms.len() - 1] == last);
    assert(message_from(en, k, ms[ms.len() - 1]));
    let ml = choose|m: int| 0 <= m < en.len() && en[m].0 == k && ms[ms.len() - 1] == en[m].1;
    assert(entry_from(s, prefs, en[ml]));
    let el = choose|e: int| 0 <= e < s.len() && passes(s[e], prefs) && en[ml] == entry_of(s[e]);
    assert(entry_of(s[el]) == (g.0, g.1.last()));
    assert(events.contains(s[el]));
    assert forall|e: NotifMessage| #[trigger] events.contains(e) && passes(e, prefs) && key_of(e) == g.0
        implies e.timestamp <= g.1.last().1 by {
        assert(s.contains(e));
        assert(en.contains(entry_of(e)));
        let j = choose|j: int| 0 <= j < en.len() && en[j] == entry_of(e);
        assert(en[j].0 == k);
        assert(ms.contains(en[j].1));
        let q = choose|q: int| 0 <= q < ms.len() && ms[q] == en[j].1;
        assert(ms[q].1 <= ms[ms.len() - 1].1);
    }
}

/// Sorting is stable enough for grouping: within every group of a batch the
/// notifications come oldest first, and each one is the rendering of a kept
/// event of the batch in that group.
pub proof fn lemma_grouping_stable(
    events: Seq<NotifMessage>,
    prefs: Seq<(Seq<char>, NotificationPreferences)>,
    i: int,
)
    requires
        0 <= i < grouping(events, prefs).len(),
    ensures
        rendered_time_ordered(grouping(events, prefs)[i].1),
        forall|j: int| #![trigger grouping(events, prefs)[i].1[j]] 0 <= j < grouping(events, prefs)[i].1.len() ==>
            exists|e: NotifMessage| events.contains(e) && passes(e, prefs)
                && #[trigger] entry_of(e) == (grouping(events, prefs)[i].0, grouping(events, prefs)[i].1[j]),
{
    let s = sort_by_time(events);
    let en = rendered_entries(s, prefs);
    let k = distinct_keys(en)[i];
    let g = grouping(events, prefs)[i];
    assert(g == (k, messages_for(en, k)));
    lemma_sort_by_time(events);
    lemma_rendered_entries(s, prefs);
    lemma_entry_origin(s, prefs);
    lemma_messages_for(en, k);
    let ms = messages_for(en, k);
    assert forall|j: int| #![trigger ms[j]] 0 <= j < ms.len() implies
        exists|e: NotifMessage| events.contains(e) && passes(e, prefs) && #[trigger] entry_of(e) == (k, ms[j]) by {
        assert(message_from(en, k, ms[j]));
        let m = choose|m: int| 0 <= m < en.len() && en[m].0 == k && ms[j] == en[m].1;
        assert(entry_from(s, prefs, en[m]));
        let q = choose|q: int| 0 <= q < s.len() && passes(s[q], prefs) && en[m] == entry_of(s[q]);
        assert(events.contains(s[q]));
        assert(entry_of(s[q]) == (k, ms[j]));
    }
}

/// Each row planned for a grouping is the row of one notification of one group.
proof fn lemma_plan_origin(gs: Seq<GroupView>)
    ensures
        forall|r: int| 0 <= r < persist_plan(gs).len() ==>
            exists|i: int, j: int| 0 <= i < gs.len() && 0 <= j < gs[i].1.len()
                && #[trigger] persist_plan(gs)[r] == record_for(gs[i].0, gs[i].1[j]),
    decreases gs.len(),
{
    if gs.len() > 0 {
        let d = gs.drop_last();
        lemma_plan_origin(d);
        let prev = persist_plan(d);
        let g = gs.last();
        let all = persist_plan(gs);
        assert(all == prev + group_records(g));
        assert forall|r: int| 0 <= r < all.len() implies
            exists|i: int, j: int| 0 <= i < gs.len() && 0 <= j < gs[i].1.len()
                && #[trigger] all[r] == record_for(gs[i].0, gs[i].1[j]) by {
            if r < prev.len() {
                assert(all[r] == prev[r]);
                let (i, j) = choose|i: int, j: int| 0 <= i < d.len() && 0 <= j < d[i].1.len()
                    && prev[r] == record_for(d[i].0, d[i].1[j]);
                assert(gs[i] == d[i]);
            } else {
                let q = r - prev.len();
                assert(all[r] == group_records(g)[q]);
                let i = gs.len() - 1;
                match g.0.notif_type {
                    NotifType::Order => {
                        assert(group_records(g)[q] == record_for(gs[i].0, gs[i].1[gs[i].1.len() - 1]));
                    },
                    NotifType::Transaction | NotifType::Account => {
                        assert(group_records(g)[q] == record_for(gs[i].0, gs[i].1[q]));
                    },
                    _ => {},
                }
            }
        }
    }
}

/// Rows carry their event's time: every row planned for a batch is unread,
/// has equal creation and update times, and those are the timestamp of a kept
/// event of the batch whose rendering is the row's message.
pub proof fn lemma_timestamp_fidelity(
    events: Seq<NotifMessage>,
    prefs: Seq<(Seq<char>, NotificationPreferences)>,
    r: int,
)
    requires
        0 <= r < persist_plan(grouping(events, prefs)).len(),
    ensures
        ({
            let row: RecordView = persist_plan(grouping(events, prefs))[r];
            &&& row.created_at == row.updated_at
            &&& !row.is_read
            &&& exists|e: NotifMessage| #[trigger] events.contains(e) && passes(e, prefs)
                    && row.created_at == e.timestamp as int
                    && row.user_id == e.user_id@
                    && Some(row.message) == crate::notification::event_message(e)
        }),
{
    let gs = grouping(events, prefs);
    lemma_plan_origin(gs);
    let row = persist_plan(gs)[r];
    let (i, j) = choose|i: int, j: int| 0 <= i < gs.len() && 0 <= j < gs[i].1.len()
        && persist_plan(gs)[r] == record_for(gs[i].0, gs[i].1[j]);
    lemma_grouping_stable(events, prefs, i);
    assert(gs[i].1[j] == gs[i].1[j]);
    let e = choose|e: NotifMessage| events.contains(e) && passes(e, prefs) && #[trigger] entry_of(e) == (gs[i].0, gs[i].1[j]);
    assert(row.created_at == e.timestamp as int);
}

} // verus!
