use engine::{
    transition_stages, update_stage, AppState, CollisionPlugin, CorePlugin, DamagePlugin,
    EnemyPlugin, GameFlow, GameOverPlugin, GameState, MapPlugin, PlayerPlugin, Schedule, Stage,
    System,
};

fn game() -> Schedule {
    let mut schedule = Schedule::new();
    CorePlugin.build(&mut schedule);
    MapPlugin.build(&mut schedule);
    PlayerPlugin.build(&mut schedule);
    EnemyPlugin.build(&mut schedule);
    CollisionPlugin.build(&mut schedule);
    DamagePlugin.build(&mut schedule);
    GameOverPlugin.build(&mut schedule);
    schedule
}

#[test]
fn a_new_schedule_is_empty() {
    let schedule = Schedule::new();
    assert!(schedule.entries.is_empty());
    assert!(schedule.systems(Stage::UpdateInGame).is_empty());
}

#[test]
fn steps_run_at_their_stage_in_the_order_added() {
    let mut schedule = Schedule::new();
    schedule.add_system(Stage::UpdateInGame, System::HandleDamage);
    schedule.add_system(Stage::UpdateMenu, System::Menu);
    schedule.add_system(Stage::UpdateInGame, System::CheckHealth);
    assert_eq!(
        schedule.systems(Stage::UpdateInGame),
        vec![System::HandleDamage, System::CheckHealth]
    );
    assert_eq!(schedule.systems(Stage::UpdateMenu), vec![System::Menu]);
    assert!(schedule.systems(Stage::OnExitMenu).is_empty());
}

#[test]
fn each_part_registers_its_steps() {
    let mut schedule = Schedule::new();
    CorePlugin.build(&mut schedule);
    assert_eq!(
        schedule.entries,
        vec![
            (Stage::OnEnterMenu, System::SetupMenu),
            (Stage::UpdateMenu, System::Menu),
            (Stage::OnExitMenu, System::CleanupMenu),
        ]
    );
    let mut schedule = Schedule::new();
    GameOverPlugin.build(&mut schedule);
    DamagePlugin.build(&mut schedule);
    CollisionPlugin.build(&mut schedule);
    MapPlugin.build(&mut schedule);
    assert_eq!(
        schedule.entries,
        vec![
            (Stage::OnEnterGameOver, System::ShowGameOverScreen),
            (Stage::UpdateInGame, System::HandleDamage),
            (Stage::UpdateInGame, System::HandleCollisions),
            (Stage::OnEnterInGame, System::SpawnMap),
        ]
    );
}

#[test]
fn the_game_runs_its_steps_stage_by_stage() {
    let schedule = game();
    assert_eq!(schedule.systems(Stage::OnEnterMenu), vec![System::SetupMenu]);
    assert_eq!(schedule.systems(Stage::UpdateMenu), vec![System::Menu]);
    assert_eq!(schedule.systems(Stage::OnExitMenu), vec![System::CleanupMenu]);
    assert_eq!(
        schedule.systems(Stage::OnEnterInGame),
        vec![
            System::SpawnMap,
            System::SetupPlayer,
            System::ResizePlayer,
            System::SetupEnemy,
            System::ResizeEnemy,
        ]
    );
    assert_eq!(
        schedule.systems(Stage::UpdateInGame),
        vec![
            System::CheckHealth,
            System::Movement,
            System::CameraFollow,
            System::ResizePlayer,
            System::UpdateHealthBar,
            System::ResizeEnemy,
            System::MoveTowardPlayer,
            System::UpdatePosition,
            System::HandleCollisions,
            System::HandleDamage,
        ]
    );
    assert_eq!(schedule.systems(Stage::OnEnterGameOver), vec![System::ShowGameOverScreen]);
}

#[test]
fn the_state_picks_the_stage_of_a_tick() {
    let menu = GameFlow::new();
    let running = GameFlow { app: AppState::InGame, game: GameState::Ongoing };
    let paused = GameFlow { app: AppState::InGame, game: GameState::Paused };
    let over = GameFlow { app: AppState::InGame, game: GameState::GameOver };
    assert_eq!(update_stage(menu), Some(Stage::UpdateMenu));
    assert_eq!(update_stage(running), Some(Stage::UpdateInGame));
    assert_eq!(update_stage(paused), None);
    assert_eq!(update_stage(over), None);
}

#[test]
fn a_change_of_state_passes_its_stages_once() {
    let menu = GameFlow::new();
    let running = GameFlow { app: AppState::InGame, game: GameState::Ongoing };
    let over = GameFlow { app: AppState::InGame, game: GameState::GameOver };
    assert_eq!(transition_stages(menu, running), vec![Stage::OnExitMenu, Stage::OnEnterInGame]);
    assert_eq!(transition_stages(running, over), vec![Stage::OnEnterGameOver]);
    assert!(transition_stages(menu, menu).is_empty());
    assert!(transition_stages(running, running).is_empty());
    assert!(transition_stages(over, over).is_empty());
    assert_eq!(
        transition_stages(menu, over),
        vec![Stage::OnExitMenu, Stage::OnEnterInGame, Stage::OnEnterGameOver]
    );
}
