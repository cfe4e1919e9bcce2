//! One tick of a running game.

use vstd::prelude::*;

use crate::actors::Actors;
use crate::collision::{after_events, handle_collisions, CollisionEvent};
use crate::contact::CollisionState;
use crate::damage::{contacts_after_tick, handle_damage, health_after_tick};
use crate::health::Health;
use crate::state::GameFlow;

verus! {

/// Takes the core of the game one tick further: the overlap events of the
/// tick go into the contact set, the contacts then cost the player health for
/// the time `elapsed`, and last the health decides whether the game is over.
/// Outside a running game nothing happens.
pub fn tick(
    flow: &mut GameFlow,
    events: &Vec<CollisionEvent>,
    elapsed: u32,
    player: &mut Option<Health>,
    actors: &Actors,
    state: &mut CollisionState,
)
    ensures
        !old(flow).gameplay_runs() ==> {
            &&& *final(flow) == *old(flow)
            &&& *final(player) == *old(player)
            &&& final(state)@ == old(state)@
        },
        old(flow).gameplay_runs() ==> {
            &&& final(state)@ == contacts_after_tick(
                *old(player),
                after_events(old(state)@, actors, events@),
                actors,
                elapsed,
            )
            &&& *final(player) == health_after_tick(
                *old(player),
                after_events(old(state)@, actors, events@),
                actors,
                elapsed,
            )
            &&& *final(flow) == old(flow).after_health_check(*final(player))
        },
{
    if flow.gameplay_runs() {
        handle_collisions(events, actors, state);
        handle_damage(elapsed, player, actors, state);
        flow.handle_health(*player);
    }
}

} // verus!
