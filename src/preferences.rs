//! The process-local preference cache.

use vstd::prelude::*;
use crate::notification::{default_preferences, NotificationPreferences};
use crate::text::concat2;
use crate::assoc::{lemma_lookup_remove, lookup_in};

verus! {

/// Key prefix under which preferences are cached in the shared key-value store.
pub open spec fn preference_key_prefix() -> Seq<char> {
    "raidenx:user:notification:preferences:"@
}

/// The shared-cache key of a user's preferences.
pub fn get_redis_preference_key(user_id: &String) -> (r: String)
    ensures
        r@ == preference_key_prefix() + user_id@,
{
    concat2("raidenx:user:notification:preferences:", user_id)
}

/// The preferences to apply for `u`: the stored ones, else everything enabled.
pub open spec fn effective_in(s: Seq<(Seq<char>, NotificationPreferences)>, u: Seq<char>) -> NotificationPreferences {
    match lookup_in(s, u) {
        Some(p) => p,
        None => default_preferences(),
    }
}

/// The entries of a list of (user, preferences) records, as views.
pub open spec fn records_view(r: Seq<(String, NotificationPreferences)>) -> Seq<(Seq<char>, NotificationPreferences)> {
    r.map_values(|e: (String, NotificationPreferences)| (e.0@, e.1))
}

/// The process-local map from user to notification preferences.
pub struct PreferenceCache {
    entries: Vec<(String, NotificationPreferences)>,
}

impl View for PreferenceCache {
    type V = Seq<(Seq<char>, NotificationPreferences)>;

    closed spec fn view(&self) -> Seq<(Seq<char>, NotificationPreferences)> {
        records_view(self.entries@)
    }
}

impl PreferenceCache {
    /// The preferences cached for `u`, if any.
    pub open spec fn lookup(&self, u: Seq<char>) -> Option<NotificationPreferences> {
        lookup_in(self@, u)
    }

    /// The preferences in force for `u`: cached ones, else the defaults.
    pub open spec fn effective(&self, u: Seq<char>) -> NotificationPreferences {
        effective_in(self@, u)
    }

    pub fn new() -> (r: PreferenceCache)
        ensures
            r@ == Seq::<(Seq<char>, NotificationPreferences)>::empty(),
    {
        let r = PreferenceCache { entries: Vec::new() };
        assert(r@ =~= Seq::<(Seq<char>, NotificationPreferences)>::empty());
        r
    }

    /// Replaces the cache's contents by `records`; returns whether any were there
    /// (an empty scan is reported so that the caller can warn).
    pub fn preload(&mut self, records: &Vec<(String, NotificationPreferences)>) -> (r: bool)
        ensures
            final(self)@ == records_view(records@),
            r == (records@.len() > 0),
    {
        self.entries.clear();
        let mut i: usize = 0;
        while i < records.len()
            invariant
                i <= records@.len(),
                self@ == records_view(records@.subrange(0, i as int)),
            decreases records@.len() - i,
        {
            let ghost before = self.entries@;
            let user = records[i].0.clone();
            let p = records[i].1;
            self.entries.push((user, p));
            proof {
                assert(self.entries@ == before.push((user, p)));
                assert(user@ == records@[i as int].0@);
                assert(records@.subrange(0, i + 1) =~= records@.subrange(0, i as int).push(records@[i as int]));
                assert(records_view(before.push((user, p))) =~= records_view(before).push((user@, p)));
                assert(records_view(records@.subrange(0, i + 1)) =~= records_view(records@.subrange(0, i as int)).push((user@, p)));
            }
            i = i + 1;
        }
        assert(records@.subrange(0, records@.len() as int) =~= records@);
        records.len() > 0
    }

    /// The preferences cached for `user_id`, if any.
    pub fn get(&self, user_id: &String) -> (r: Option<NotificationPreferences>)
        ensures
            r == self.lookup(user_id@),
    {
        let mut i: usize = self.entries.len();
        assert(self@.subrange(0, i as int) =~= self@);
        while i > 0
            invariant
                i <= self.entries@.len(),
                self.lookup(user_id@) == lookup_in(self@.subrange(0, i as int), user_id@),
            decreases i,
        {
            proof {
                assert(self@.subrange(0, i as int).drop_last() =~= self@.subrange(0, i - 1));
            }
            if self.entries[i - 1].0 == *user_id {
                return Some(self.entries[i - 1].1);
            }
            i = i - 1;
        }
        None
    }

    /// Stores `preferences` for `user_id`, replacing what was cached.
    pub fn update(&mut self, user_id: &String, preferences: NotificationPreferences)
        ensures
            forall|u: Seq<char>| #[trigger] final(self).lookup(u)
                == if u == user_id@ { Some(preferences) } else { old(self).lookup(u) },
    {
        let ghost start = self@;
        let mut i: usize = self.entries.len();
        let mut found = false;
        while i > 0 && !found
            invariant
                i <= self.entries@.len(),
                self@ == start,
                found ==> 0 < i && start[i - 1].0 == user_id@,
            decreases i + if found { 0int } else { 1int },
        {
            if self.entries[i - 1].0 == *user_id {
                found = true;
            } else {
                i = i - 1;
            }
        }
        if found {
            self.entries.remove(i - 1);
            proof {
                assert(self@ =~= start.remove(i - 1));
                assert forall|u: Seq<char>| u != user_id@ implies lookup_in(self@, u) == lookup_in(start, u) by {
                    lemma_lookup_remove(start, i - 1, u);
                }
            }
        }
        let ghost mid = self@;
        self.entries.push((user_id.clone(), preferences));
        proof {
            assert(self@.drop_last() =~= mid);
        }
    }

    /// Settles a lookup that missed the process-local map: `found` is what the
    /// shared cache or, failing that, the document store returned. A hit is
    /// cached and returned; a miss everywhere caches and returns the defaults,
    /// so that later lookups of the user are answered from the map.
    pub fn settle(&mut self, user_id: &String, found: Option<NotificationPreferences>) -> (r: NotificationPreferences)
        ensures
            r == match found { Some(p) => p, None => default_preferences() },
            final(self).lookup(user_id@) == Some(r),
            forall|u: Seq<char>| u != user_id@ ==> #[trigger] final(self).lookup(u) == old(self).lookup(u),
    {
        let p = match found {
            Some(p) => p,
            None => NotificationPreferences::all_enabled(),
        };
        self.update(user_id, p);
        p
    }

    /// The users among `user_ids` whose preferences are not cached, each once:
    /// those are the ones to look up in the stores.
    pub fn users_to_fetch(&self, user_ids: &Vec<String>) -> (r: Vec<String>)
        ensures
            string_views(r@).no_duplicates(),
            forall|u: Seq<char>| #[trigger] string_views(r@).contains(u) <==>
                (string_views(user_ids@).contains(u) && self.lookup(u) is None),
    {
        let mut r: Vec<String> = Vec::new();
        let mut i: usize = 0;
        assert(string_views(r@) =~= Seq::<Seq<char>>::empty());
        while i < user_ids.len()
            invariant
                i <= user_ids@.len(),
                string_views(r@).no_duplicates(),
                forall|u: Seq<char>| #[trigger] string_views(r@).contains(u) <==>
                    (string_views(user_ids@.subrange(0, i as int)).contains(u) && self.lookup(u) is None),
            decreases user_ids@.len() - i,
        {
            let u = &user_ids[i];
            let cached = self.get(u);
            let seen = contains_text(&r, u);
            let ghost old_r = string_views(r@);
            if cached.is_none() && !seen {
                r.push(u.clone());
            }
            proof {
                let prev = string_views(user_ids@.subrange(0, i as int));
                let next = string_views(user_ids@.subrange(0, i + 1));
                assert(next =~= prev.push(u@));
                if cached.is_none() && !seen {
                    assert(string_views(r@) =~= old_r.push(u@));
                    assert forall|w: Seq<char>| #[trigger] string_views(r@).contains(w) <==> old_r.contains(w) || w == u@ by {
                        if old_r.contains(w) {
                            let a = choose|a: int| 0 <= a < old_r.len() && old_r[a] == w;
                            assert(string_views(r@)[a] == w);
                        }
                        if w == u@ {
                            assert(string_views(r@)[old_r.len() as int] == w);
                        }
                    }
                } else {
                    assert(string_views(r@) == old_r);
                }
                assert forall|w: Seq<char>| #[trigger] next.contains(w) <==> prev.contains(w) || w == u@ by {
                    if prev.contains(w) {
                        let a = choose|a: int| 0 <= a < prev.len() && prev[a] == w;
                        assert(next[a] == w);
                    }
                    if w == u@ {
                        assert(next[i as int] == w);
                    }
                }
            }
            i = i + 1;
        }
        assert(user_ids@.subrange(0, user_ids@.len() as int) =~= user_ids@);
        r
    }
}

/// Preloading is idempotent: a cache preloaded from a scan and then preloaded
/// again from the same scan is in the state that one preload leaves, whatever
/// it held before either.
pub proof fn lemma_preload_idempotent(
    once: PreferenceCache,
    twice: PreferenceCache,
    records: Seq<(String, NotificationPreferences)>,
)
    requires
        once@ == records_view(records),
        twice@ == records_view(records),
    ensures
        twice@ == once@,
        forall|u: Seq<char>| #[trigger] twice.lookup(u) == once.lookup(u),
{
}

/// The character sequences of a list of strings.
pub open spec fn string_views(s: Seq<String>) -> Seq<Seq<char>> {
    s.map_values(|x: String| x@)
}

/// Whether `s` holds a string with the characters of `t`.
pub fn contains_text(s: &Vec<String>, t: &String) -> (r: bool)
    ensures
        r == string_views(s@).contains(t@),
{
    let mut k: usize = 0;
    while k < s.len()
        invariant
            k <= s@.len(),
            forall|a: int| 0 <= a < k ==> s@[a]@ != t@,
        decreases s@.len() - k,
    {
        if s[k] == *t {
            assert(string_views(s@)[k as int] == t@);
            return true;
        }
        k = k + 1;
    }
    assert(!string_views(s@).contains(t@));
    false

}

} // verus!
