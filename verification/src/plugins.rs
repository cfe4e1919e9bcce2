//! The parts of the game, each with the steps it brings to the schedule.

use vstd::prelude::*;

use crate::schedule::{Schedule, Stage, System};

verus! {

/// The menu: set up on entry, answering the pointer while shown, taken down
/// on leaving.
pub struct CorePlugin;

/// The tile map, drawn when a game begins.
pub struct MapPlugin;

/// The player: placed when a game begins; then, tick by tick, the health
/// check, movement, the camera, the size on screen and the health bar.
pub struct PlayerPlugin;

/// The enemy: placed when a game begins; then, tick by tick, its size on
/// screen, its pursuit of the player and its change of position.
pub struct EnemyPlugin;

/// The contact tracker, fed with the overlap events of every tick of a game.
pub struct CollisionPlugin;

/// The damage step, taken on every tick of a game.
pub struct DamagePlugin;

/// The screen shown when the game is over.
pub struct GameOverPlugin;

impl CorePlugin {
    /// What this part registers, in order.
    pub open spec fn systems() -> Seq<(Stage, System)> {
        seq![
            (Stage::OnEnterMenu, System::SetupMenu),
            (Stage::UpdateMenu, System::Menu),
            (Stage::OnExitMenu, System::CleanupMenu),
        ]
    }

    /// Adds the steps of this part to `schedule`.
    pub fn build(&self, schedule: &mut Schedule)
        ensures
            final(schedule).entries@ == old(schedule).entries@ + Self::systems(),
    {
        schedule.add_system(Stage::OnEnterMenu, System::SetupMenu);
        schedule.add_system(Stage::UpdateMenu, System::Menu);
        schedule.add_system(Stage::OnExitMenu, System::CleanupMenu);
        assert(schedule.entries@ =~= old(schedule).entries@ + Self::systems());
    }
}

impl MapPlugin {
    /// What this part registers, in order.
    pub open spec fn systems() -> Seq<(Stage, System)> {
        seq![(Stage::OnEnterInGame, System::SpawnMap)]
    }

    /// Adds the steps of this part to `schedule`.
    pub fn build(&self, schedule: &mut Schedule)
        ensures
            final(schedule).entries@ == old(schedule).entries@ + Self::systems(),
    {
        schedule.add_system(Stage::OnEnterInGame, System::SpawnMap);
        assert(schedule.entries@ =~= old(schedule).entries@ + Self::systems());
    }
}

impl PlayerPlugin {
    /// What this part registers, in order.
    pub open spec fn systems() -> Seq<(Stage, System)> {
        seq![
            (Stage::OnEnterInGame, System::SetupPlayer),
            (Stage::OnEnterInGame, System::ResizePlayer),
            (Stage::UpdateInGame, System::CheckHealth),
            (Stage::UpdateInGame, System::Movement),
            (Stage::UpdateInGame, System::CameraFollow),
            (Stage::UpdateInGame, System::ResizePlayer),
            (Stage::UpdateInGame, System::UpdateHealthBar),
        ]
    }

    /// Adds the steps of this part to `schedule`.
    pub fn build(&self, schedule: &mut Schedule)
        ensures
            final(schedule).entries@ == old(schedule).entries@ + Self::systems(),
    {
        schedule.add_system(Stage::OnEnterInGame, System::SetupPlayer);
        schedule.add_system(Stage::OnEnterInGame, System::ResizePlayer);
        schedule.add_system(Stage::UpdateInGame, System::CheckHealth);
        schedule.add_system(Stage::UpdateInGame, System::Movement);
        schedule.add_system(Stage::UpdateInGame, System::CameraFollow);
        schedule.add_system(Stage::UpdateInGame, System::ResizePlayer);
        schedule.add_system(Stage::UpdateInGame, System::UpdateHealthBar);
        assert(schedule.entries@ =~= old(schedule).entries@ + Self::systems());
    }
}

impl EnemyPlugin {
    /// What this part registers, in order.
    pub open spec fn systems() -> Seq<(Stage, System)> {
        seq![
            (Stage::OnEnterInGame, System::SetupEnemy),
            (Stage::OnEnterInGame, System::ResizeEnemy),
            (Stage::UpdateInGame, System::ResizeEnemy),
            (Stage::UpdateInGame, System::MoveTowardPlayer),
            (Stage::UpdateInGame, System::UpdatePosition),
        ]
    }

    /// Adds the steps of this part to `schedule`.
    pub fn build(&self, schedule: &mut Schedule)
        ensures
            final(schedule).entries@ == old(schedule).entries@ + Self::systems(),
    {
        schedule.add_system(Stage::OnEnterInGame, System::SetupEnemy);
        schedule.add_system(Stage::OnEnterInGame, System::ResizeEnemy);
        schedule.add_system(Stage::UpdateInGame, System::ResizeEnemy);
        schedule.add_system(Stage::UpdateInGame, System::MoveTowardPlayer);
        schedule.add_system(Stage::UpdateInGame, System::UpdatePosition);
        assert(schedule.entries@ =~= old(schedule).entries@ + Self::systems());
    }
}

impl CollisionPlugin {
    /// What this part registers, in order.
    pub open spec fn systems() -> Seq<(Stage, System)> {
        seq![(Stage::UpdateInGame, System::HandleCollisions)]
    }

    /// Adds the steps of this part to `schedule`.
    pub fn build(&self, schedule: &mut Schedule)
        ensures
            final(schedule).entries@ == old(schedule).entries@ + Self::systems(),
    {
        schedule.add_system(Stage::UpdateInGame, System::HandleCollisions);
        assert(schedule.entries@ =~= old(schedule).entries@ + Self::systems());
    }
}

impl DamagePlugin {
    /// What this part registers, in order.
    pub open spec fn systems() -> Seq<(Stage, System)> {
        seq![(Stage::UpdateInGame, System::HandleDamage)]
    }

    /// Adds the steps of this part to `schedule`.
    pub fn build(&self, schedule: &mut Schedule)
        ensures
            final(schedule).entries@ == old(schedule).entries@ + Self::systems(),
    {
        schedule.add_system(Stage::UpdateInGame, System::HandleDamage);
        assert(schedule.entries@ =~= old(schedule).entries@ + Self::systems());
    }
}

impl GameOverPlugin {
    /// What this part registers, in order.
    pub open spec fn systems() -> Seq<(Stage, System)> {
        seq![(Stage::OnEnterGameOver, System::ShowGameOverScreen)]
    }

    /// Adds the steps of this part to `schedule`.
    pub fn build(&self, schedule: &mut Schedule)
        ensures
            final(schedule).entries@ == old(schedule).entries@ + Self::systems(),
    {
        schedule.add_system(Stage::OnEnterGameOver, System::ShowGameOverScreen);
        assert(schedule.entries@ =~= old(schedule).entries@ + Self::systems());
    }
}

} // verus!
