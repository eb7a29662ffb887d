//! The rows the persistence worker writes for a grouped batch.

use vstd::prelude::*;
use crate::consumer::{topic_name, KafkaTopic};
use crate::notification::NotifMessage;
use crate::preferences::PreferenceCache;
use crate::grouping::{distinct_keys, group_by_user_id, grouping, rendered_entries, sort_by_time, groups_view, rendered_view, GroupView, KeyView, NotifKey, NotificationWithTimestamp, Rendered};
use crate::notification::{notif_title, notif_type_name, NotifType};

verus! {

/// A notification row to insert in the document store.
#[derive(Debug, Clone)]
pub struct NotificationRecord {
    pub user_id: String,
    pub notif_type: String,
    pub title: String,
    pub message: String,
    pub created_at: i64,
    pub updated_at: i64,
    pub is_read: bool,
}

/// The value of a [`NotificationRecord`].
pub struct RecordView {
    pub user_id: Seq<char>,
    pub notif_type: Seq<char>,
    pub title: Seq<char>,
    pub message: Seq<char>,
    pub created_at: int,
    pub updated_at: int,
    pub is_read: bool,
}

impl View for NotificationRecord {
    type V = RecordView;

    open spec fn view(&self) -> RecordView {
        RecordView {
            user_id: self.user_id@,
            notif_type: self.notif_type@,
            title: self.title@,
            message: self.message@,
            created_at: self.created_at as int,
            updated_at: self.updated_at as int,
            is_read: self.is_read,
        }
    }
}

/// The values of a list of records.
pub open spec fn records_view(s: Seq<NotificationRecord>) -> Seq<RecordView> {
    s.map_values(|r: NotificationRecord| r@)
}

/// The unread row for notification `n` of bucket `k`, stamped with the
/// event's own time.
pub open spec fn record_for(k: KeyView, n: Rendered) -> RecordView {
    RecordView {
        user_id: k.user_id,
        notif_type: notif_type_name(k.notif_type),
        title: notif_title(k.notif_type),
        message: n.0,
        created_at: n.1,
        updated_at: n.1,
        is_read: false,
    }
}

/// The rows one group yields: for orders only the last notification, for
/// transactions and account events each one, for other types none.
pub open spec fn group_records(g: GroupView) -> Seq<RecordView> {
    match g.0.notif_type {
        NotifType::Order => if g.1.len() > 0 { seq![record_for(g.0, g.1.last())] } else { Seq::empty() },
        NotifType::Transaction | NotifType::Account => g.1.map_values(|n: Rendered| record_for(g.0, n)),
        _ => Seq::empty(),
    }
}

/// The rows a whole grouping yields, group after group.
pub open spec fn persist_plan(gs: Seq<GroupView>) -> Seq<RecordView>
    decreases gs.len(),
{
    if gs.len() == 0 {
        Seq::empty()
    } else {
        persist_plan(gs.drop_last()) + group_records(gs.last())
    }
}

fn make_record(key: &NotifKey, n: &NotificationWithTimestamp) -> (r: NotificationRecord)
    ensures
        r@ == record_for(key@, n@),
{
    NotificationRecord {
        user_id: key.user_id.clone(),
        notif_type: key.notif_type.to_type_string(),
        title: key.notif_type.construct_title(),
        message: n.message.clone(),
        created_at: n.timestamp,
        updated_at: n.timestamp,
        is_read: false,
    }
}

/// The rows to write for a grouped batch. Every row is unread and carries
/// its source event's timestamp as both creation and update time.
pub fn plan_records(groups: &Vec<(NotifKey, Vec<NotificationWithTimestamp>)>) -> (r: Vec<NotificationRecord>)
    ensures
        records_view(r@) == persist_plan(groups_view(groups@)),
        forall|i: int| 0 <= i < r@.len() ==> r@[i].created_at == r@[i].updated_at && !r@[i].is_read,
{
    let ghost gv = groups_view(groups@);
    let mut r: Vec<NotificationRecord> = Vec::new();
    let mut g: usize = 0;
    assert(records_view(r@) =~= persist_plan(gv.subrange(0, 0)));
    while g < groups.len()
        invariant
            gv == groups_view(groups@),
            g <= groups@.len(),
            records_view(r@) == persist_plan(gv.subrange(0, g as int)),
            forall|i: int| 0 <= i < r@.len() ==> r@[i].created_at == r@[i].updated_at && !r@[i].is_read,
        decreases groups@.len() - g,
    {
        let key = &groups[g].0;
        let list = &groups[g].1;
        let ghost before = records_view(r@);
        let ghost gr = gv[g as int];
        proof {
            assert(gv.subrange(0, g + 1).drop_last() =~= gv.subrange(0, g as int));
            assert(gv.subrange(0, g + 1).last() == gr);
            assert(gr.0 == key@);
            assert(gr.1 == rendered_view(list@));
        }
        match key.notif_type {
            NotifType::Order => {
                if list.len() > 0 {
                    let rec = make_record(key, &list[list.len() - 1]);
                    r.push(rec);
                    assert(records_view(r@) =~= before + group_records(gr));
                } else {
                    assert(records_view(r@) =~= before + group_records(gr));
                }
            },
            NotifType::Transaction | NotifType::Account => {
                let mut j: usize = 0;
                assert(records_view(r@) =~= before + gr.1.subrange(0, 0).map_values(|n: Rendered| record_for(gr.0, n)));
                while j < list.len()
                    invariant
                        gr.0 == key@,
                        gr.1 == rendered_view(list@),
                        j <= list@.len(),
                        records_view(r@) == before + gr.1.subrange(0, j as int).map_values(|n: Rendered| record_for(gr.0, n)),
                        forall|i: int| 0 <= i < r@.len() ==> r@[i].created_at == r@[i].updated_at && !r@[i].is_read,
                    decreases list@.len() - j,
                {
                    let ghost prev = r@;
                    let rec = make_record(key, &list[j]);
                    r.push(rec);
                    assert(records_view(r@) =~= records_view(prev).push(rec@));
                    assert(gr.1.subrange(0, j + 1).map_values(|n: Rendered| record_for(gr.0, n))
                        =~= gr.1.subrange(0, j as int).map_values(|n: Rendered| record_for(gr.0, n)).push(record_for(gr.0, gr.1[j as int])));
                    j = j + 1;
                }
                assert(gr.1.subrange(0, list@.len() as int) =~= gr.1);
                assert(records_view(r@) =~= before + group_records(gr));
            },
            _ => {
                assert(records_view(r@) =~= before + group_records(gr));
            },
        }
        g = g + 1;
    }
    assert(gv.subrange(0, gv.len() as int) =~= gv);
    r
}

} // verus!

verus! {

/// The worker that writes notification rows for the persistence topic.
pub struct NotificationPersistConsumer;

impl NotificationPersistConsumer {
    /// The topic this worker consumes.
    pub fn topic() -> (r: String)
        ensures
            r@ == topic_name(KafkaTopic::UserNotificationPersister),
    {
        KafkaTopic::UserNotificationPersister.name()
    }

    /// The rows to write for one batch of events, given the cached preferences
    /// of its users; an empty batch, or one whose events are all filtered out,
    /// gives none.
    pub fn handle_batch(events: Vec<NotifMessage>, preferences: &PreferenceCache) -> (r: Vec<NotificationRecord>)
        ensures
            records_view(r@) == persist_plan(grouping(events@, preferences@)),
            events@.len() == 0 ==> r@.len() == 0,
    {
        if events.len() == 0 {
            proof {
                assert(sort_by_time(events@) == events@);
                assert(rendered_entries(events@, preferences@).len() == 0);
                assert(distinct_keys(rendered_entries(events@, preferences@)).len() == 0);
                assert(grouping(events@, preferences@).len() == 0);
            }
            return Vec::new();
        }
        let groups = group_by_user_id(events, preferences);
        plan_records(&groups)
    }
}

} // verus!
