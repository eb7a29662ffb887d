//! The process-local cache of active device tokens and its updates.

use vstd::prelude::*;
use crate::assoc::{keys_unique, lemma_lookup_absent, lemma_lookup_at, lemma_lookup_remove, lookup_in};
use crate::preferences::{contains_text, string_views};

verus! {

/// Name of the pub/sub channel that carries token updates.
pub open spec fn update_fcm_token_channel() -> Seq<char> {
    "vdax:notification:update_fcm_token"@
}

/// The pub/sub channel that carries token updates.
pub fn update_fcm_token_channel_name() -> (r: String)
    ensures
        r@ == update_fcm_token_channel(),
{
    String::from_str("vdax:notification:update_fcm_token")
}

/// Whether a device token may be targeted.
#[derive(Debug, Clone, Copy, PartialEq, Eq, Structural)]
pub enum UserFcmTokenStatus {
    Active,
    Inactive,
}

/// Upper-case stored name of a token status.
pub open spec fn token_status_name(s: UserFcmTokenStatus) -> Seq<char> {
    match s {
        UserFcmTokenStatus::Active => "ACTIVE"@,
        UserFcmTokenStatus::Inactive => "INACTIVE"@,
    }
}

impl UserFcmTokenStatus {
    /// The upper-case name under which the status is stored.
    pub fn to_status_string(&self) -> (r: String)
        ensures
            r@ == token_status_name(*self),
    {
        match self {
            UserFcmTokenStatus::Active => String::from_str("ACTIVE"),
            UserFcmTokenStatus::Inactive => String::from_str("INACTIVE"),
        }
    }
}

/// A change to a user's set of device tokens.
#[derive(Debug, Clone, Copy, PartialEq, Eq, Structural)]
pub enum UpdateFcmTokenAction {
    Add,
    Remove,
}

/// A token update as broadcast on the invalidation channel.
#[derive(Debug, Clone)]
pub struct UpdateFcmToken {
    pub user_id: String,
    pub token: String,
    pub action: UpdateFcmTokenAction,
}

/// A device token row as the document store holds it.
#[derive(Debug, Clone)]
pub struct DeviceToken {
    pub user_id: String,
    pub device_id: String,
    pub token: String,
    pub platform: Option<String>,
    pub status: UserFcmTokenStatus,
}

/// The tokens of the active rows of `rows` that belong to `u`, in order.
pub open spec fn active_tokens_of(rows: Seq<DeviceToken>, u: Seq<char>) -> Seq<Seq<char>>
    decreases rows.len(),
{
    if rows.len() == 0 {
        Seq::empty()
    } else {
        let prev = active_tokens_of(rows.drop_last(), u);
        let r = rows.last();
        if r.user_id@ == u && r.status == UserFcmTokenStatus::Active { prev.push(r.token@) } else { prev }
    }
}

/// The tokens of the active rows of `rows`, in order.
pub open spec fn active_tokens(rows: Seq<DeviceToken>) -> Seq<Seq<char>>
    decreases rows.len(),
{
    if rows.len() == 0 {
        Seq::empty()
    } else {
        let prev = active_tokens(rows.drop_last());
        if rows.last().status == UserFcmTokenStatus::Active { prev.push(rows.last().token@) } else { prev }
    }
}

/// What a cache filled from `rows` holds for `u`: its active tokens, or
/// nothing where it has none.
pub open spec fn preloaded(rows: Seq<DeviceToken>, u: Seq<char>) -> Option<Seq<Seq<char>>> {
    if active_tokens_of(rows, u).len() > 0 { Some(active_tokens_of(rows, u)) } else { None }
}

/// What applying `update` to `current`, a user's cached tokens, leaves cached:
/// adding puts the token last unless it is there; removing takes out every
/// copy and drops the user once no token is left.
pub open spec fn applied(current: Option<Seq<Seq<char>>>, update: UpdateFcmToken) -> Option<Seq<Seq<char>>> {
    match update.action {
        UpdateFcmTokenAction::Add => {
            let ts = match current { Some(ts) => ts, None => Seq::empty() };
            if ts.contains(update.token@) { Some(ts) } else { Some(ts.push(update.token@)) }
        },
        UpdateFcmTokenAction::Remove => match current {
            None => None,
            Some(ts) => {
                let kept = ts.filter(|t: Seq<char>| t != update.token@);
                if kept.len() > 0 { Some(kept) } else { None }
            },
        },
    }
}

/// The process-local map from user to active device tokens.
pub struct FcmTokenCache {
    entries: Vec<(String, Vec<String>)>,
}

impl View for FcmTokenCache {
    type V = Seq<(Seq<char>, Seq<Seq<char>>)>;

    closed spec fn view(&self) -> Seq<(Seq<char>, Seq<Seq<char>>)> {
        self.entries@.map_values(|e: (String, Vec<String>)| (e.0@, string_views(e.1@)))
    }
}

/// A copy of a list of strings.
pub fn copy_strings(s: &Vec<String>) -> (r: Vec<String>)
    ensures
        string_views(r@) == string_views(s@),
{
    let mut r: Vec<String> = Vec::new();
    let mut i: usize = 0;
    while i < s.len()
        invariant
            i <= s@.len(),
            string_views(r@) == string_views(s@).subrange(0, i as int),
        decreases s@.len() - i,
    {
        let ghost prev = r@;
        r.push(s[i].clone());
        assert(string_views(r@) =~= string_views(prev).push(s@[i as int]@));
        assert(string_views(s@).subrange(0, i + 1) =~= string_views(s@).subrange(0, i as int).push(s@[i as int]@));
        i = i + 1;
    }
    assert(string_views(s@).subrange(0, s@.len() as int) =~= string_views(s@));
    r
}

impl FcmTokenCache {
    /// Well-formedness: each user holds one entry.
    pub closed spec fn wf(&self) -> bool {
        keys_unique(self@)
    }

    /// The tokens cached for `u`, if the user is cached.
    pub open spec fn lookup(&self, u: Seq<char>) -> Option<Seq<Seq<char>>> {
        lookup_in(self@, u)
    }

    pub fn new() -> (r: FcmTokenCache)
        ensures
            r.wf(),
            forall|u: Seq<char>| #[trigger] r.lookup(u) is None,
    {
        let r = FcmTokenCache { entries: Vec::new() };
        assert(r@ =~= Seq::<(Seq<char>, Seq<Seq<char>>)>::empty());
        r
    }

    fn find(&self, user_id: &String) -> (r: Option<usize>)
        ensures
            match r {
                Some(i) => i < self@.len() && self@[i as int].0 == user_id@,
                None => forall|i: int| 0 <= i < self@.len() ==> self@[i].0 != user_id@,
            },
    {
        let mut i: usize = 0;
        while i < self.entries.len()
            invariant
                i <= self@.len(),
                self@.len() == self.entries@.len(),
                forall|a: int| 0 <= a < i ==> self@[a].0 != user_id@,
            decreases self@.len() - i,
        {
            if self.entries[i].0 == *user_id {
                return Some(i);
            }
            i = i + 1;
        }
        None
    }

    /// A copy of the tokens cached for `user_id`, or `None` on a miss.
    pub fn get(&self, user_id: &String) -> (r: Option<Vec<String>>)
        requires
            self.wf(),
        ensures
            match r {
                Some(v) => self.lookup(user_id@) == Some(string_views(v@)),
                None => self.lookup(user_id@) is None,
            },
    {
        match self.find(user_id) {
            Some(i) => {
                proof { lemma_lookup_at(self@, i as int); }
                Some(copy_strings(&self.entries[i].1))
            },
            None => {
                proof { lemma_lookup_absent(self@, user_id@); }
                None
            },
        }
    }

    /// Takes `user_id` out of the cache; returns its tokens if it was there.
    fn take(&mut self, user_id: &String) -> (r: Option<Vec<String>>)
        requires
            old(self).wf(),
        ensures
            final(self).wf(),
            match r {
                Some(v) => old(self).lookup(user_id@) == Some(string_views(v@)),
                None => old(self).lookup(user_id@) is None,
            },
            final(self).lookup(user_id@) is None,
            forall|u: Seq<char>| u != user_id@ ==> #[trigger] final(self).lookup(u) == old(self).lookup(u),
    {
        match self.find(user_id) {
            Some(i) => {
                proof { lemma_lookup_at(self@, i as int); }
                let ghost before = self@;
                let (_, v) = self.entries.remove(i);
                proof {
                    assert(self@ =~= before.remove(i as int));
                    assert forall|u: Seq<char>| u != user_id@ implies #[trigger] lookup_in(self@, u) == lookup_in(before, u) by {
                        lemma_lookup_remove(before, i as int, u);
                    }
                    assert forall|a: int| 0 <= a < self@.len() implies self@[a].0 != user_id@ by {
                        if a < i { assert(self@[a] == before[a]); } else { assert(self@[a] == before[a + 1]); }
                    }
                    lemma_lookup_absent(self@, user_id@);
                }
                Some(v)
            },
            None => {
                proof { lemma_lookup_absent(self@, user_id@); }
                None
            },
        }
    }

    /// Caches `tokens` as the tokens of `user_id`.
    fn put(&mut self, user_id: &String, tokens: Vec<String>)
        requires
            old(self).wf(),
        ensures
            final(self).wf(),
            final(self).lookup(user_id@) == Some(string_views(tokens@)),
            forall|u: Seq<char>| u != user_id@ ==> #[trigger] final(self).lookup(u) == old(self).lookup(u),
    {
        let ghost start = *self;
        let _ = self.take(user_id);
        let ghost mid = *self;
        let ghost before = self@;
        proof {
            assert forall|a: int| 0 <= a < before.len() implies before[a].0 != user_id@ by {
                if before[a].0 == user_id@ { lemma_lookup_at(before, a); }
            }
        }
        self.entries.push((user_id.clone(), tokens));
        assert(self@ =~= before.push((user_id@, string_views(tokens@))));
        assert(self@.drop_last() =~= before);
        assert forall|u: Seq<char>| u != user_id@ implies #[trigger] self.lookup(u) == start.lookup(u) by {
            assert(self@.last().0 == user_id@);
            assert(mid.lookup(u) == start.lookup(u));
        }
    }

    /// Replaces the cache's contents by the active tokens of `rows`.
    pub fn preload(&mut self, rows: &Vec<DeviceToken>)
        ensures
            final(self).wf(),
            forall|u: Seq<char>| #[trigger] final(self).lookup(u) == preloaded(rows@, u),
    {
        self.entries.clear();
        assert(self@ =~= Seq::<(Seq<char>, Seq<Seq<char>>)>::empty());
        let mut i: usize = 0;
        while i < rows.len()
            invariant
                i <= rows@.len(),
                self.wf(),
                forall|u: Seq<char>| #[trigger] self.lookup(u) == preloaded(rows@.subrange(0, i as int), u),
            decreases rows@.len() - i,
        {
            let row = &rows[i];
            proof {
                assert(rows@.subrange(0, i + 1).drop_last() =~= rows@.subrange(0, i as int));
                assert(rows@.subrange(0, i + 1).last() == *row);
            }
            if row.status == UserFcmTokenStatus::Active {
                let mut ts = match self.take(&row.user_id) {
                    Some(v) => v,
                    None => Vec::new(),
                };
                let ghost prev = ts@;
                ts.push(row.token.clone());
                assert(string_views(ts@) =~= string_views(prev).push(row.token@));
                self.put(&row.user_id, ts);
            }
            i = i + 1;
        }
        assert(rows@.subrange(0, rows@.len() as int) =~= rows@);
    }

    /// Caches what the document store returned for `user_id` on a miss,
    /// keeping the active rows (an empty list is cached too), and returns those
    /// tokens.
    pub fn fill(&mut self, user_id: &String, rows: &Vec<DeviceToken>) -> (r: Vec<String>)
        requires
            old(self).wf(),
        ensures
            final(self).wf(),
            string_views(r@) == active_tokens(rows@),
            final(self).lookup(user_id@) == Some(active_tokens(rows@)),
            forall|u: Seq<char>| u != user_id@ ==> #[trigger] final(self).lookup(u) == old(self).lookup(u),
    {
        let mut r: Vec<String> = Vec::new();
        let mut i: usize = 0;
        assert(string_views(r@) =~= active_tokens(rows@.subrange(0, 0)));
        while i < rows.len()
            invariant
                i <= rows@.len(),
                string_views(r@) == active_tokens(rows@.subrange(0, i as int)),
            decreases rows@.len() - i,
        {
            proof {
                assert(rows@.subrange(0, i + 1).drop_last() =~= rows@.subrange(0, i as int));
                assert(rows@.subrange(0, i + 1).last() == rows@[i as int]);
            }
            if rows[i].status == UserFcmTokenStatus::Active {
                let ghost prev = r@;
                r.push(rows[i].token.clone());
                assert(string_views(r@) =~= string_views(prev).push(rows@[i as int].token@));
            }
            i = i + 1;
        }
        assert(rows@.subrange(0, rows@.len() as int) =~= rows@);
        self.put(user_id, copy_strings(&r));
        r
    }

    /// Applies a token update broadcast on the invalidation channel.
    pub fn apply(&mut self, update: &UpdateFcmToken)
        requires
            old(self).wf(),
        ensures
            final(self).wf(),
            final(self).lookup(update.user_id@) == applied(old(self).lookup(update.user_id@), *update),
            forall|u: Seq<char>| u != update.user_id@ ==> #[trigger] final(self).lookup(u) == old(self).lookup(u),
    {
        let current = self.take(&update.user_id);
        match update.action {
            UpdateFcmTokenAction::Add => {
                let mut ts = match current {
                    Some(v) => v,
                    None => {
                        let v: Vec<String> = Vec::new();
                        assert(string_views(v@) =~= Seq::<Seq<char>>::empty());
                        v
                    },
                };
                if !contains_text(&ts, &update.token) {
                    let ghost prev = ts@;
                    ts.push(update.token.clone());
                    assert(string_views(ts@) =~= string_views(prev).push(update.token@));
                }
                self.put(&update.user_id, ts);
            },
            UpdateFcmTokenAction::Remove => {
                match current {
                    Some(ts) => {
                        let kept = without_text(&ts, &update.token);
                        if kept.len() > 0 {
                            self.put(&update.user_id, kept);
                        }
                    },
                    None => {},
                }
            },
        }
    }
}

/// Preloading is idempotent: a token cache preloaded from a scan and then
/// preloaded again from the same scan answers every lookup as after one
/// preload, whatever it held before either.
pub proof fn lemma_preload_idempotent(once: FcmTokenCache, twice: FcmTokenCache, rows: Seq<DeviceToken>)
    requires
        forall|u: Seq<char>| #[trigger] once.lookup(u) == preloaded(rows, u),
        forall|u: Seq<char>| #[trigger] twice.lookup(u) == preloaded(rows, u),
    ensures
        forall|u: Seq<char>| #[trigger] twice.lookup(u) == once.lookup(u),
{
}

/// The strings of `s` other than `t`, in order.
pub fn without_text(s: &Vec<String>, t: &String) -> (r: Vec<String>)
    ensures
        string_views(r@) == string_views(s@).filter(|x: Seq<char>| x != t@),
{
    let ghost sv = string_views(s@);
    let mut r: Vec<String> = Vec::new();
    let mut i: usize = 0;
    assert(sv.subrange(0, 0).filter(|x: Seq<char>| x != t@) =~= Seq::<Seq<char>>::empty());
    while i < s.len()
        invariant
            sv == string_views(s@),
            i <= s@.len(),
            string_views(r@) == sv.subrange(0, i as int).filter(|x: Seq<char>| x != t@),
        decreases s@.len() - i,
    {
        proof {
            assert(sv.subrange(0, i + 1).drop_last() =~= sv.subrange(0, i as int));
            assert(sv.subrange(0, i + 1).last() == s@[i as int]@);
            reveal(Seq::filter);
        }
        if s[i] != *t {
            let ghost prev = r@;
            r.push(s[i].clone());
            assert(string_views(r@) =~= string_views(prev).push(s@[i as int]@));
        }
        i = i + 1;
    }
    assert(sv.subrange(0, sv.len() as int) =~= sv);
    r
}

} // verus!
