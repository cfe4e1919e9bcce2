//! From overlap events to the contact set.

use vstd::prelude::*;

use crate::actors::Actors;
use crate::contact::{begun, CollisionState};

verus! {

/// Two actors began or ceased to overlap. The two are named in no fixed order.
#[derive(Clone, Copy, Debug, PartialEq, Eq, Structural)]
pub enum CollisionEvent {
    Started(u64, u64),
    Stopped(u64, u64),
}

/// The enemy of a player-enemy pair: exactly one of the two is a player,
/// exactly one is an enemy, and the enemy is not the player.
pub open spec fn spec_contact_enemy(actors: &Actors, first: u64, second: u64) -> Option<u64> {
    if actors.is_player(first) && !actors.is_player(second) && actors.is_enemy(second)
        && !actors.is_enemy(first) {
        Some(second)
    } else if actors.is_player(second) && !actors.is_player(first) && actors.is_enemy(first)
        && !actors.is_enemy(second) {
        Some(first)
    } else {
        None
    }
}

/// The enemy that `event` is about, if it is between a player and an enemy.
pub open spec fn enemy_of(actors: &Actors, event: CollisionEvent) -> Option<u64> {
    match event {
        CollisionEvent::Started(first, second) | CollisionEvent::Stopped(first, second) => {
            spec_contact_enemy(actors, first, second)
        },
    }
}

/// The contact set after one event. A start adds the enemy with no time on it
/// unless it is there already; a stop takes the enemy out; an event that is
/// not between a player and an enemy changes nothing.
pub open spec fn after_event(
    contacts: Map<u64, u64>,
    actors: &Actors,
    event: CollisionEvent,
) -> Map<u64, u64> {
    match enemy_of(actors, event) {
        Some(enemy) => if event is Started {
            begun(contacts, enemy)
        } else {
            contacts.remove(enemy)
        },
        None => contacts,
    }
}

/// The contact set after a run of events, taken in order.
pub open spec fn after_events(
    contacts: Map<u64, u64>,
    actors: &Actors,
    events: Seq<CollisionEvent>,
) -> Map<u64, u64>
    decreases events.len(),
{
    if events.len() == 0 {
        contacts
    } else {
        after_event(after_events(contacts, actors, events.drop_last()), actors, events.last())
    }
}

/// Tells which of two overlapping actors is the enemy touching the player,
/// whichever way round the pair is reported.
#[verifier::when_used_as_spec(spec_contact_enemy)]
pub fn contact_enemy(actors: &Actors, first: u64, second: u64) -> (enemy: Option<u64>)
    ensures
        enemy == spec_contact_enemy(actors, first, second),
        first == second ==> enemy is None,
{
    let first_player = actors.is_player(first);
    let second_player = actors.is_player(second);
    let first_enemy = actors.enemy(first).is_some();
    let second_enemy = actors.enemy(second).is_some();
    if first_player && !second_player && second_enemy && !first_enemy {
        Some(second)
    } else if second_player && !first_player && first_enemy && !second_enemy {
        Some(first)
    } else {
        None
    }
}

/// Brings the contact set up to date with one event.
pub fn handle_collision(event: CollisionEvent, actors: &Actors, state: &mut CollisionState)
    ensures
        final(state)@ == after_event(old(state)@, actors, event),
{
    match event {
        CollisionEvent::Started(first, second) => {
            if let Some(enemy) = contact_enemy(actors, first, second) {
                state.begin(enemy);
            }
        },
        CollisionEvent::Stopped(first, second) => {
            if let Some(enemy) = contact_enemy(actors, first, second) {
                state.end(enemy);
            }
        },
    }
}

/// Brings the contact set up to date with the events of one tick, in the
/// order given.
pub fn handle_collisions(events: &Vec<CollisionEvent>, actors: &Actors, state: &mut CollisionState)
    ensures
        final(state)@ == after_events(old(state)@, actors, events@),
{
    let mut i: usize = 0;
    while i < events.len()
        invariant
            i <= events.len(),
            state@ == after_events(old(state)@, actors, events@.take(i as int)),
        decreases events.len() - i,
    {
        handle_collision(events[i], actors, state);
        assert(events@.take(i + 1).drop_last() =~= events@.take(i as int));
        i += 1;
    }
    assert(events@.take(i as int) =~= events@);
}

/// `player` is a player and no enemy, `enemy` an enemy and no player.
pub open spec fn player_enemy_pair(actors: &Actors, player: u64, enemy: u64) -> bool {
    &&& actors.is_player(player)
    &&& !actors.is_enemy(player)
    &&& actors.is_enemy(enemy)
    &&& !actors.is_player(enemy)
}

/// Whether `event` is between `player` and `enemy`, named in either order.
pub open spec fn between(event: CollisionEvent, player: u64, enemy: u64) -> bool {
    match event {
        CollisionEvent::Started(first, second) | CollisionEvent::Stopped(first, second) => {
            ||| first == player && second == enemy
            ||| first == enemy && second == player
        },
    }
}

/// Whether `id` has the same entry, or none, in both contact sets.
pub open spec fn same_entry(before: Map<u64, u64>, after: Map<u64, u64>, id: u64) -> bool {
    &&& after.contains_key(id) <==> before.contains_key(id)
    &&& before.contains_key(id) ==> after[id] == before[id]
}

/// One if `enemy` is in contact, zero if it is not.
pub open spec fn presence(contacts: Map<u64, u64>, enemy: u64) -> int {
    if contacts.contains_key(enemy) {
        1
    } else {
        0
    }
}

/// Starts less stops over a run of events, counted from `before` and held
/// between zero and one at every step.
pub open spec fn contact_count(before: int, events: Seq<CollisionEvent>) -> int
    decreases events.len(),
{
    if events.len() == 0 {
        before
    } else {
        let count = contact_count(before, events.drop_last());
        match events.last() {
            CollisionEvent::Started(_, _) => if count >= 1 {
                1
            } else {
                count + 1
            },
            CollisionEvent::Stopped(_, _) => if count <= 0 {
                0
            } else {
                count - 1
            },
        }
    }
}

/// Over any run of events between one player and one enemy, the enemy is in
/// the contact set afterwards exactly when the held count of starts less
/// stops is one: a start adds it when absent, a stop removes it when present,
/// and a repeated start or stop changes nothing. The entry of any other enemy
/// stays as it was.
pub proof fn lemma_membership_counts_events(
    contacts: Map<u64, u64>,
    actors: &Actors,
    player: u64,
    enemy: u64,
    events: Seq<CollisionEvent>,
)
    requires
        player_enemy_pair(actors, player, enemy),
        forall|i: int| 0 <= i < events.len() ==> between(#[trigger] events[i], player, enemy),
    ensures
        after_events(contacts, actors, events).contains_key(enemy) <==> contact_count(
            presence(contacts, enemy),
            events,
        ) == 1,
        0 <= contact_count(presence(contacts, enemy), events) <= 1,
        forall|other: u64|
            other != enemy ==> #[trigger] same_entry(
                contacts,
                after_events(contacts, actors, events),
                other,
            ),
    decreases events.len(),
{
    if events.len() > 0 {
        let earlier = events.drop_last();
        assert forall|i: int| 0 <= i < earlier.len() implies between(
            #[trigger] earlier[i],
            player,
            enemy,
        ) by {
            assert(earlier[i] == events[i]);
        }
        lemma_membership_counts_events(contacts, actors, player, enemy, earlier);
        let last = events.last();
        assert(between(last, player, enemy)) by {
            assert(last == events[events.len() - 1]);
        }
        match last {
            CollisionEvent::Started(first, second) | CollisionEvent::Stopped(first, second) => {
                assert(spec_contact_enemy(actors, first, second) == Some(enemy));
            },
        }
        let before = after_events(contacts, actors, earlier);
        let after = after_events(contacts, actors, events);
        assert(after == after_event(before, actors, last));
        assert forall|other: u64| other != enemy implies #[trigger] same_entry(
            contacts,
            after,
            other,
        ) by {
            assert(same_entry(contacts, before, other));
        }
    }
}

/// An event told twice counts once. So a start for an enemy already in
/// contact leaves it in once, with the time it had.
pub proof fn lemma_repeated_event_is_no_op(
    contacts: Map<u64, u64>,
    actors: &Actors,
    event: CollisionEvent,
)
    ensures
        after_event(after_event(contacts, actors, event), actors, event) == after_event(
            contacts,
            actors,
            event,
        ),
        event is Started && enemy_of(actors, event) is Some && contacts.contains_key(
            enemy_of(actors, event)->0,
        ) ==> after_event(contacts, actors, event) == contacts,
{
    assert(after_event(after_event(contacts, actors, event), actors, event) =~= after_event(
        contacts,
        actors,
        event,
    ));
}

/// Two events about different enemies may come in either order.
pub proof fn lemma_events_on_different_enemies_commute(
    contacts: Map<u64, u64>,
    actors: &Actors,
    first: CollisionEvent,
    second: CollisionEvent,
)
    requires
        enemy_of(actors, first) != enemy_of(actors, second),
    ensures
        after_event(after_event(contacts, actors, first), actors, second) == after_event(
            after_event(contacts, actors, second),
            actors,
            first,
        ),
{
    assert(after_event(after_event(contacts, actors, first), actors, second) =~= after_event(
        after_event(contacts, actors, second),
        actors,
        first,
    ));
}

} // verus!
