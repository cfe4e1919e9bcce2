//! Which step of the game runs at which point of the session.

use vstd::prelude::*;

use crate::state::{AppState, GameFlow, GameState};

verus! {

/// A step of the game.
#[derive(Debug, PartialEq, Eq, Clone, Copy, Structural)]
pub enum System {
    SetupMenu,
    Menu,
    CleanupMenu,
    SpawnMap,
    SetupPlayer,
    SetupEnemy,
    ResizePlayer,
    ResizeEnemy,
    CheckHealth,
    Movement,
    CameraFollow,
    UpdateHealthBar,
    MoveTowardPlayer,
    UpdatePosition,
    HandleCollisions,
    HandleDamage,
    ShowGameOverScreen,
}

/// A point of the session at which steps run: once when a state is entered
/// or left, or on every tick spent in it.
#[derive(Debug, PartialEq, Eq, Clone, Copy, Structural)]
pub enum Stage {
    OnEnterMenu,
    UpdateMenu,
    OnExitMenu,
    OnEnterInGame,
    UpdateInGame,
    OnEnterGameOver,
}

/// The steps registered so far, each with its stage, in the order in which
/// they were added.
pub struct Schedule {
    pub entries: Vec<(Stage, System)>,
}

/// The steps that `entries` holds for `stage`, in their order.
pub open spec fn systems_of(entries: Seq<(Stage, System)>, stage: Stage) -> Seq<System>
    decreases entries.len(),
{
    if entries.len() == 0 {
        Seq::empty()
    } else if entries.last().0 == stage {
        systems_of(entries.drop_last(), stage).push(entries.last().1)
    } else {
        systems_of(entries.drop_last(), stage)
    }
}

/// The stage whose steps run on a tick spent in `flow`: the menu's in the
/// menu, the game's while a game is on, none while paused or once it is over.
pub open spec fn spec_update_stage(flow: GameFlow) -> Option<Stage> {
    if flow.app == AppState::Menu {
        Some(Stage::UpdateMenu)
    } else if flow.gameplay_runs() {
        Some(Stage::UpdateInGame)
    } else {
        None
    }
}

/// The stages passed on the way from `before` to `after`: leaving the menu,
/// entering the game, and entering game over, in this order, each only if it
/// happened.
pub open spec fn spec_transition_stages(before: GameFlow, after: GameFlow) -> Seq<Stage> {
    let left_menu: Seq<Stage> = if before.app == AppState::Menu && after.app != AppState::Menu {
        seq![Stage::OnExitMenu]
    } else {
        seq![]
    };
    let entered_game: Seq<Stage> = if before.app != AppState::InGame && after.app
        == AppState::InGame {
        seq![Stage::OnEnterInGame]
    } else {
        seq![]
    };
    let game_over: Seq<Stage> = if before.game != GameState::GameOver && after.game
        == GameState::GameOver {
        seq![Stage::OnEnterGameOver]
    } else {
        seq![]
    };
    left_menu + entered_game + game_over
}

/// Says which stage's steps run on a tick spent in `flow`.
#[verifier::when_used_as_spec(spec_update_stage)]
pub fn update_stage(flow: GameFlow) -> (stage: Option<Stage>)
    ensures
        stage == spec_update_stage(flow),
        stage == Some(Stage::UpdateInGame) <==> flow.gameplay_runs(),
        stage == Some(Stage::UpdateMenu) <==> flow.app == AppState::Menu,
{
    if flow.app == AppState::Menu {
        Some(Stage::UpdateMenu)
    } else if flow.gameplay_runs() {
        Some(Stage::UpdateInGame)
    } else {
        None
    }
}

/// Lists the stages passed on the way from `before` to `after`.
pub fn transition_stages(before: GameFlow, after: GameFlow) -> (stages: Vec<Stage>)
    ensures
        stages@ == spec_transition_stages(before, after),
{
    let mut stages: Vec<Stage> = Vec::new();
    if before.app == AppState::Menu && after.app != AppState::Menu {
        stages.push(Stage::OnExitMenu);
    }
    if before.app != AppState::InGame && after.app == AppState::InGame {
        stages.push(Stage::OnEnterInGame);
    }
    if before.game != GameState::GameOver && after.game == GameState::GameOver {
        stages.push(Stage::OnEnterGameOver);
    }
    assert(stages@ =~= spec_transition_stages(before, after));
    stages
}

impl Schedule {
    /// A schedule with nothing in it.
    pub fn new() -> (schedule: Schedule)
        ensures
            schedule.entries@.len() == 0,
    {
        Schedule { entries: Vec::new() }
    }

    /// Registers `system` to run at `stage`, after what is registered there.
    pub fn add_system(&mut self, stage: Stage, system: System)
        ensures
            final(self).entries@ == old(self).entries@.push((stage, system)),
    {
        self.entries.push((stage, system));
    }

    /// The steps to run at `stage`, in the order in which they were added.
    pub fn systems(&self, stage: Stage) -> (due: Vec<System>)
        ensures
            due@ == systems_of(self.entries@, stage),
    {
        let mut due: Vec<System> = Vec::new();
        let mut i: usize = 0;
        while i < self.entries.len()
            invariant
                i <= self.entries.len(),
                due@ == systems_of(self.entries@.take(i as int), stage),
            decreases self.entries.len() - i,
        {
            let entry = self.entries[i];
            assert(self.entries@.take(i + 1).drop_last() =~= self.entries@.take(i as int));
            if entry.0 == stage {
                due.push(entry.1);
            }
            i += 1;
        }
        assert(self.entries@.take(i as int) =~= self.entries@);
        due
    }
}

/// A step is due at a stage exactly when it was registered for that stage.
pub proof fn lemma_due_iff_registered(entries: Seq<(Stage, System)>, stage: Stage, system: System)
    ensures
        systems_of(entries, stage).contains(system) <==> entries.contains((stage, system)),
    decreases entries.len(),
{
    if entries.len() > 0 {
        let earlier = entries.drop_last();
        let last = entries.last();
        lemma_due_iff_registered(earlier, stage, system);
        if entries.contains((stage, system)) {
            let i = choose|i: int| 0 <= i < entries.len() && entries[i] == (stage, system);
            if i < entries.len() - 1 {
                assert(earlier[i] == (stage, system));
            }
        }
        if earlier.contains((stage, system)) {
            let i = choose|i: int| 0 <= i < earlier.len() && earlier[i] == (stage, system);
            assert(entries[i] == (stage, system));
        }
        if last.0 == stage {
            let due = systems_of(earlier, stage);
            assert(due.push(last.1)[due.len() as int] == last.1);
            if due.push(last.1).contains(system) {
                let i = choose|i: int| 0 <= i < due.len() + 1 && due.push(last.1)[i] == system;
                if i < due.len() {
                    assert(due[i] == system);
                }
            }
            if due.contains(system) {
                let i = choose|i: int| 0 <= i < due.len() && due[i] == system;
                assert(due.push(last.1)[i] == system);
            }
        }
        if last == (stage, system) {
            assert(entries[entries.len() - 1] == (stage, system));
        }
    }
}

} // verus!
