//! Personal timezones: at most one per user.
use std::collections::HashMap;
use vstd::prelude::*;

use crate::zone::{is_known_zone, Timezone};

verus! {

broadcast use vstd::std_specs::hash::group_hash_axioms;

/// The table of personal timezones, keyed by user.
#[derive(Debug)]
pub struct PersonalStore {
    zones: HashMap<u64, Timezone>,
}

impl View for PersonalStore {
    type V = Map<u64, Seq<char>>;

    closed spec fn view(&self) -> Map<u64, Seq<char>> {
        self.zones@.map_values(|t: Timezone| t@)
    }
}

impl PersonalStore {
    /// An empty table.
    pub fn new() -> (r: PersonalStore)
        ensures
            r@ == Map::<u64, Seq<char>>::empty(),
    {
        let r = PersonalStore { zones: HashMap::new() };
        assert(r@ =~= Map::<u64, Seq<char>>::empty());
        r
    }

    /// The number of users with a timezone.
    pub fn len(&self) -> (r: usize)
        ensures
            r == self@.len(),
    {
        assert(self@.dom() =~= self.zones@.dom());
        self.zones.len()
    }

    /// Sets the timezone of `user_id`, adding the user if absent and
    /// replacing the old value otherwise, in one step.
    pub fn upsert(&mut self, user_id: u64, timezone: Timezone)
        ensures
            final(self)@ == old(self)@.insert(user_id, timezone@),
    {
        self.zones.insert(user_id, timezone);
        assert(final(self)@ =~= old(self)@.insert(user_id, timezone@));
    }

    /// The timezone of `user_id`, if set.
    pub fn get(&self, user_id: u64) -> (r: Option<&Timezone>)
        ensures
            r is Some <==> self@.contains_key(user_id),
            r matches Some(tz) ==> tz@ == self@[user_id] && is_known_zone(tz@),
    {
        match self.zones.get(&user_id) {
            Some(tz) => {
                // The zone's name comes with the fact that the database knows it.
                let _ = tz.name();
                Some(tz)
            },
            None => None,
        }
    }
}

/// Setting a user's timezone twice leaves one entry for that user, holding the
/// second timezone, and the same table as setting only the second.
pub proof fn lemma_upsert_twice(
    m: Map<u64, Seq<char>>,
    user_id: u64,
    first: Seq<char>,
    second: Seq<char>,
)
    ensures
        m.insert(user_id, first).insert(user_id, second) == m.insert(user_id, second),
        m.insert(user_id, first).insert(user_id, second)[user_id] == second,
        m.insert(user_id, first).insert(user_id, second).dom().filter(|u: u64| u == user_id)
            == set![user_id],
{
    assert(m.insert(user_id, first).insert(user_id, second) =~= m.insert(user_id, second));
    assert(m.insert(user_id, first).insert(user_id, second).dom().filter(|u: u64| u == user_id)
        =~= set![user_id]);
}

} // verus!
