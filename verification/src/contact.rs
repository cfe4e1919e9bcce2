//! Which enemies are touching the player, and for how long.

use bevy::utils::HashMap;
use vstd::prelude::*;

verus! {

/// The enemies now in contact with the player, each with the time its contact
/// has lasted so far, in microseconds.
///
/// The table is a `bevy::utils::HashMap`, that is hashbrown's `HashMap` with
/// bevy's hasher. The verifier does not look into it: what it holds is spoken
/// of through the view, and every access goes through one of the five
/// functions below, whose contracts are taken on trust from hashbrown's
/// documentation.
#[verifier::external_body]
pub struct CollisionState {
    colliding_entities: HashMap<u64, u64>,
}

/// What the table of a `CollisionState` holds: contact time by enemy.
pub uninterp spec fn colliding_entities(state: CollisionState) -> Map<u64, u64>;

/// The contact set with nobody in it.
pub open spec fn no_contacts() -> Map<u64, u64> {
    Map::empty()
}

/// The contact set once contact with `enemy` has begun: the enemy is in, with
/// no time on it if it is new and with the time it had if it is not.
pub open spec fn begun(contacts: Map<u64, u64>, enemy: u64) -> Map<u64, u64> {
    if contacts.contains_key(enemy) {
        contacts
    } else {
        contacts.insert(enemy, 0)
    }
}

impl View for CollisionState {
    type V = Map<u64, u64>;

    /// Contact time by enemy.
    open spec fn view(&self) -> Map<u64, u64> {
        colliding_entities(*self)
    }
}

/// `bevy::utils::HashMap::default`: a table that holds nothing.
#[verifier::external_body]
fn table_new() -> (created: CollisionState)
    ensures
        colliding_entities(created) == no_contacts(),
{
    CollisionState { colliding_entities: HashMap::default() }
}

/// `bevy::utils::HashMap::get`: the value stored under `id`, if there is one.
#[verifier::external_body]
fn table_get(state: &CollisionState, id: u64) -> (found: Option<u64>)
    ensures
        found == if colliding_entities(*state).contains_key(id) {
            Some(colliding_entities(*state)[id])
        } else {
            None
        },
{
    state.colliding_entities.get(&id).copied()
}

/// `bevy::utils::HashMap::insert`: stores `duration` under `id`, in place of
/// what was stored there, and leaves every other entry alone.
#[verifier::external_body]
fn table_insert(state: &mut CollisionState, id: u64, duration: u64)
    ensures
        colliding_entities(*final(state)) == colliding_entities(*old(state)).insert(id, duration),
{
    state.colliding_entities.insert(id, duration);
}

/// `bevy::utils::HashMap::remove`: drops the entry under `id`, if there is
/// one, and leaves every other entry alone.
#[verifier::external_body]
fn table_remove(state: &mut CollisionState, id: u64)
    ensures
        colliding_entities(*final(state)) == colliding_entities(*old(state)).remove(id),
{
    state.colliding_entities.remove(&id);
}

/// `bevy::utils::HashMap::keys`: every key once, in an order that is not
/// fixed.
#[verifier::external_body]
fn table_keys(state: &CollisionState) -> (keys: Vec<u64>)
    ensures
        keys@.no_duplicates(),
        forall|id: u64| keys@.contains(id) <==> colliding_entities(*state).contains_key(id),
{
    state.colliding_entities.keys().copied().collect()
}

impl CollisionState {
    /// An empty contact set.
    pub fn new() -> (state: CollisionState)
        ensures
            state@ == no_contacts(),
    {
        table_new()
    }

    /// Whether `enemy` is in contact.
    pub fn contains(&self, enemy: u64) -> (present: bool)
        ensures
            present == self@.contains_key(enemy),
    {
        table_get(self, enemy).is_some()
    }

    /// How long `enemy` has been in contact, if it is.
    pub fn duration(&self, enemy: u64) -> (found: Option<u64>)
        ensures
            found == if self@.contains_key(enemy) {
                Some(self@[enemy])
            } else {
                None
            },
    {
        table_get(self, enemy)
    }

    /// Puts `enemy` into contact with no time on it yet, unless it is in
    /// contact already: then nothing changes.
    pub fn begin(&mut self, enemy: u64)
        ensures
            final(self)@ == begun(old(self)@, enemy),
    {
        if table_get(self, enemy).is_none() {
            table_insert(self, enemy, 0);
        }
    }

    /// Puts `enemy` into contact with `duration` on it, whether or not it
    /// was in contact before.
    pub fn set_duration(&mut self, enemy: u64, duration: u64)
        ensures
            final(self)@ == old(self)@.insert(enemy, duration),
    {
        table_insert(self, enemy, duration);
    }

    /// Takes `enemy` out of contact; nothing changes if it was not in.
    pub fn end(&mut self, enemy: u64)
        ensures
            final(self)@ == old(self)@.remove(enemy),
    {
        table_remove(self, enemy);
    }

    /// The enemies in contact, each once, in no particular order.
    pub fn enemies(&self) -> (ids: Vec<u64>)
        ensures
            ids@.no_duplicates(),
            forall|id: u64| ids@.contains(id) <==> self@.contains_key(id),
            ids@.len() == self@.dom().len(),
            self@.dom().finite(),
    {
        let ids = table_keys(self);
        proof {
            ids@.unique_seq_to_set();
            assert(ids@.to_set() =~= self@.dom());
        }
        ids
    }
}

impl Default for CollisionState {
    /// An empty contact set.
    fn default() -> (state: CollisionState)
        ensures
            state@ == no_contacts(),
    {
        table_new()
    }
}

} // verus!
