//! From contacts and elapsed time to lost health.

use vstd::prelude::*;

use crate::actors::Actors;
use crate::contact::CollisionState;
use crate::health::Health;

verus! {

/// The health that contact with `id` costs over `elapsed` microseconds, in
/// millionths of a point: its rate times the time, and nothing for an
/// identifier that is no enemy.
pub open spec fn damage_of(actors: &Actors, id: u64, elapsed: u32) -> nat {
    match actors.enemy(id) {
        Some(enemy) => (enemy.damage_per_second as nat) * (elapsed as nat),
        None => 0,
    }
}

/// The damage of all of `ids` together.
pub open spec fn total_damage(ids: Set<u64>, actors: &Actors, elapsed: u32) -> nat
    decreases ids.len(),
    when ids.finite()
{
    if ids.is_empty() {
        0
    } else {
        let id = ids.choose();
        damage_of(actors, id, elapsed) + total_damage(ids.remove(id), actors, elapsed)
    }
}

/// A contact time grown by `elapsed`, held at the largest value that fits.
pub open spec fn grown(duration: u64, elapsed: u32) -> u64 {
    if duration + elapsed > u64::MAX {
        u64::MAX
    } else {
        (duration + elapsed) as u64
    }
}

/// The contact set a tick later: the same enemies, the time of each
/// registered one grown by `elapsed`.
pub open spec fn aged(contacts: Map<u64, u64>, actors: &Actors, elapsed: u32) -> Map<u64, u64> {
    Map::new(
        |id: u64| contacts.contains_key(id),
        |id: u64|
            if actors.is_enemy(id) {
                grown(contacts[id], elapsed)
            } else {
                contacts[id]
            },
    )
}

/// The player's health after a tick of contact: less by the damage of all
/// enemies in contact, where there is a player.
pub open spec fn health_after_tick(
    player: Option<Health>,
    contacts: Map<u64, u64>,
    actors: &Actors,
    elapsed: u32,
) -> Option<Health> {
    match player {
        Some(health) => Some(
            health.after_damage(total_damage(contacts.dom(), actors, elapsed)),
        ),
        None => None,
    }
}

/// The contact set after a tick of contact: aged where there is a player,
/// else as it was.
pub open spec fn contacts_after_tick(
    player: Option<Health>,
    contacts: Map<u64, u64>,
    actors: &Actors,
    elapsed: u32,
) -> Map<u64, u64> {
    if player is Some {
        aged(contacts, actors, elapsed)
    } else {
        contacts
    }
}

/// Taking one member out of a finite set takes its damage out of the total.
pub proof fn lemma_total_damage_remove(ids: Set<u64>, actors: &Actors, elapsed: u32, id: u64)
    requires
        ids.finite(),
        ids.contains(id),
    ensures
        total_damage(ids, actors, elapsed) == damage_of(actors, id, elapsed) + total_damage(
            ids.remove(id),
            actors,
            elapsed,
        ),
    decreases ids.len(),
{
    let chosen = ids.choose();
    if chosen != id {
        lemma_total_damage_remove(ids.remove(chosen), actors, elapsed, id);
        lemma_total_damage_remove(ids.remove(id), actors, elapsed, chosen);
        assert(ids.remove(chosen).remove(id) =~= ids.remove(id).remove(chosen));
    }
}

/// Adding a new member to a finite set adds its damage to the total.
pub proof fn lemma_total_damage_insert(ids: Set<u64>, actors: &Actors, elapsed: u32, id: u64)
    requires
        ids.finite(),
        !ids.contains(id),
    ensures
        total_damage(ids.insert(id), actors, elapsed) == total_damage(ids, actors, elapsed)
            + damage_of(actors, id, elapsed),
{
    lemma_total_damage_remove(ids.insert(id), actors, elapsed, id);
    assert(ids.insert(id).remove(id) =~= ids);
}

/// One tick of contact damage.
///
/// With a player present, every enemy in contact that is registered has its
/// contact time grown by `elapsed` and takes its rate times `elapsed` from the
/// player's health, all of them together and none capped but by the floor of
/// zero. Without a player nothing changes.
pub fn handle_damage(
    elapsed: u32,
    player: &mut Option<Health>,
    actors: &Actors,
    state: &mut CollisionState,
)
    ensures
        *final(player) == health_after_tick(*old(player), old(state)@, actors, elapsed),
        final(state)@ == contacts_after_tick(*old(player), old(state)@, actors, elapsed),
        final(state)@.dom() == old(state)@.dom(),
{
    if let Some(start) = *player {
        let mut health = start;
        let ids = state.enemies();
        let mut i: usize = 0;
        assert(ids@.take(0).to_set() =~= Set::<u64>::empty());
        while i < ids.len()
            invariant
                i <= ids.len(),
                ids@.no_duplicates(),
                forall|id: u64| ids@.contains(id) <==> old(state)@.contains_key(id),
                state@.dom() =~= old(state)@.dom(),
                forall|j: int|
                    0 <= j < i ==> state@[#[trigger] ids@[j]] == aged(
                        old(state)@,
                        actors,
                        elapsed,
                    )[ids@[j]],
                forall|j: int| i <= j < ids.len() ==> state@[#[trigger] ids@[j]] == old(state)@[ids@[j]],
                health == start.after_damage(
                    total_damage(ids@.take(i as int).to_set(), actors, elapsed),
                ),
            decreases ids.len() - i,
        {
            let id = ids[i];
            let ghost done = ids@.take(i as int).to_set();
            proof {
                assert(ids@.contains(id));
                assert(!done.contains(id)) by {
                    if done.contains(id) {
                        let j = choose|j: int| 0 <= j < i && ids@.take(i as int)[j] == id;
                        assert(ids@[j] == ids@[i as int]);
                    }
                }
                assert(ids@.take(i + 1) =~= ids@.take(i as int).push(id));
                ids@.take(i as int).lemma_push_to_set_commute(id);
                vstd::seq_lib::seq_to_set_is_finite(ids@.take(i as int));
                lemma_total_damage_insert(done, actors, elapsed, id);
            }
            if let Some(enemy) = actors.enemy(id) {
                if let Some(duration) = state.duration(id) {
                    state.set_duration(id, duration.saturating_add(elapsed as u64));
                }
                assert(enemy.damage_per_second * elapsed <= u64::MAX) by (nonlinear_arith)
                    requires
                        enemy.damage_per_second <= u32::MAX,
                        elapsed <= u32::MAX,
                ;
                let damage: u64 = enemy.damage_per_second as u64 * elapsed as u64;
                health.apply_damage(damage);
            }
            i += 1;
        }
        *player = Some(health);
        proof {
            assert(ids@.take(i as int) =~= ids@);
            assert(ids@.to_set() =~= old(state)@.dom());
            assert forall|id: u64| state@.contains_key(id) implies state@[id] == aged(
                old(state)@,
                actors,
                elapsed,
            )[id] by {
                let j = choose|j: int| 0 <= j < ids@.len() && ids@[j] == id;
                assert(state@[ids@[j]] == aged(old(state)@, actors, elapsed)[ids@[j]]);
            }
            assert(state@ =~= aged(old(state)@, actors, elapsed));
        }
    }
    assert(state@.dom() =~= old(state)@.dom());
}

} // verus!
