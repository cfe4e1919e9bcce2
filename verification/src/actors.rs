//! The actors of a session, by identifier.

use vstd::prelude::*;

verus! {

/// What makes an actor an enemy: the health it takes from the player for each
/// second of contact, in points.
#[derive(Clone, Copy, Debug, PartialEq, Eq, Structural)]
pub struct Enemy {
    pub damage_per_second: u32,
}

/// The rate of the game's enemy, in points per second.
pub const ENEMY_DAMAGE_PER_SECOND: u32 = 10;

/// Who is a player and who is an enemy.
///
/// An identifier listed twice among the enemies counts with its first entry.
pub struct Actors {
    pub players: Vec<u64>,
    pub enemies: Vec<(u64, Enemy)>,
}

/// The first entry of `enemies` under `id`.
pub open spec fn find_enemy(enemies: Seq<(u64, Enemy)>, id: u64) -> Option<Enemy>
    decreases enemies.len(),
{
    if enemies.len() == 0 {
        None
    } else if enemies[0].0 == id {
        Some(enemies[0].1)
    } else {
        find_enemy(enemies.drop_first(), id)
    }
}

impl Enemy {
    /// An enemy does harm: its rate is positive.
    pub open spec fn wf(&self) -> bool {
        self.damage_per_second > 0
    }

    /// An enemy that takes `damage_per_second` points a second.
    pub fn new(damage_per_second: u32) -> (enemy: Enemy)
        requires
            damage_per_second > 0,
        ensures
            enemy.damage_per_second == damage_per_second,
            enemy.wf(),
    {
        Enemy { damage_per_second }
    }
}

impl Actors {
    /// Whether `id` is listed among the players.
    pub open spec fn spec_is_player(&self, id: u64) -> bool {
        self.players@.contains(id)
    }

    /// The first enemy listed under `id`, if there is one.
    pub open spec fn spec_enemy(&self, id: u64) -> Option<Enemy> {
        find_enemy(self.enemies@, id)
    }

    /// Whether `id` is registered as an enemy.
    pub open spec fn is_enemy(&self, id: u64) -> bool {
        self.spec_enemy(id) is Some
    }

    /// A session with nobody in it.
    pub fn new() -> (actors: Actors)
        ensures
            actors.players@.len() == 0,
            actors.enemies@.len() == 0,
    {
        Actors { players: Vec::new(), enemies: Vec::new() }
    }

    /// Whether `id` is registered as a player.
    #[verifier::when_used_as_spec(spec_is_player)]
    pub fn is_player(&self, id: u64) -> (found: bool)
        ensures
            found == self.spec_is_player(id),
    {
        let mut i: usize = 0;
        while i < self.players.len()
            invariant
                i <= self.players.len(),
                forall|j: int| 0 <= j < i ==> self.players@[j] != id,
            decreases self.players.len() - i,
        {
            if self.players[i] == id {
                return true;
            }
            i += 1;
        }
        false
    }

    /// The enemy registered under `id`, if there is one.
    #[verifier::when_used_as_spec(spec_enemy)]
    pub fn enemy(&self, id: u64) -> (found: Option<Enemy>)
        ensures
            found == self.spec_enemy(id),
    {
        let mut i: usize = 0;
        assert(self.enemies@.skip(0) =~= self.enemies@);
        while i < self.enemies.len()
            invariant
                i <= self.enemies.len(),
                find_enemy(self.enemies@, id) == find_enemy(self.enemies@.skip(i as int), id),
            decreases self.enemies.len() - i,
        {
            let entry = self.enemies[i];
            assert(self.enemies@.skip(i as int)[0] == entry);
            if entry.0 == id {
                return Some(entry.1);
            }
            assert(self.enemies@.skip(i as int).drop_first() =~= self.enemies@.skip(i + 1));
            i += 1;
        }
        None
    }
}

} // verus!
