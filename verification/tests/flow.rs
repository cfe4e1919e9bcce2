use engine::{
    check_health, menu, tick, Actors, AppState, ButtonColor, CollisionEvent, CollisionState,
    Enemy, GameFlow, GameState, Health, Interaction,
};

const PLAYER: u64 = 1;
const ENEMY: u64 = 2;

fn actors() -> Actors {
    Actors { players: vec![PLAYER], enemies: vec![(ENEMY, Enemy { damage_per_second: 10 })] }
}

fn running() -> GameFlow {
    GameFlow { app: AppState::InGame, game: GameState::Ongoing }
}

#[test]
fn a_session_opens_in_the_menu() {
    let flow = GameFlow::new();
    assert_eq!(flow.app, AppState::Menu);
    assert_eq!(flow.game, GameState::Paused);
    assert!(!flow.gameplay_runs());
    assert_eq!(AppState::default(), AppState::Menu);
    assert_eq!(GameState::default(), GameState::Paused);
}

#[test]
fn the_menu_answers_the_pointer() {
    assert_eq!(menu(Interaction::Pressed), (ButtonColor::Pressed, Some(AppState::InGame)));
    assert_eq!(menu(Interaction::Hovered), (ButtonColor::Hovered, None));
    assert_eq!(menu(Interaction::Idle), (ButtonColor::Normal, None));
}

#[test]
fn pressing_play_starts_the_game() {
    let mut flow = GameFlow::new();
    assert_eq!(flow.handle_menu(Interaction::Hovered), Some(ButtonColor::Hovered));
    assert_eq!(flow, GameFlow::new());
    assert_eq!(flow.handle_menu(Interaction::Idle), Some(ButtonColor::Normal));
    assert_eq!(flow, GameFlow::new());
    assert_eq!(flow.handle_menu(Interaction::Pressed), Some(ButtonColor::Pressed));
    assert_eq!(flow, running());
    assert!(flow.gameplay_runs());
    assert_eq!(flow.handle_menu(Interaction::Pressed), None);
    assert_eq!(flow, running());
}

#[test]
fn the_health_check_calls_game_over_for_a_dead_player_only() {
    assert_eq!(check_health(Some(Health { current: 0, max: 100 })), Some(GameState::GameOver));
    assert_eq!(check_health(Some(Health { current: 1, max: 100 })), None);
    assert_eq!(check_health(None), None);
}

#[test]
fn the_health_check_may_be_repeated() {
    let dead = Some(Health { current: 0, max: 100 });
    let mut flow = running();
    flow.handle_health(Some(Health { current: 3, max: 100 }));
    assert_eq!(flow, running());
    flow.handle_health(None);
    assert_eq!(flow, running());
    flow.handle_health(dead);
    let over = GameFlow { app: AppState::InGame, game: GameState::GameOver };
    assert_eq!(flow, over);
    flow.handle_health(dead);
    assert_eq!(flow, over);
    flow.handle_health(Some(Health { current: 50, max: 100 }));
    assert_eq!(flow, over);
    assert!(!flow.gameplay_runs());
}

#[test]
fn the_health_check_waits_for_a_running_game() {
    let mut flow = GameFlow::new();
    flow.handle_health(Some(Health { current: 0, max: 100 }));
    assert_eq!(flow, GameFlow::new());
}

#[test]
fn a_tick_tracks_contacts_then_damages_then_checks_health() {
    let actors = actors();
    let mut flow = running();
    let mut state = CollisionState::new();
    let mut player = Some(Health::new(12_000));
    let events = vec![CollisionEvent::Started(ENEMY, PLAYER)];
    tick(&mut flow, &events, 500, &mut player, &actors, &mut state);
    assert_eq!(player, Some(Health { current: 7_000, max: 12_000 }));
    assert_eq!(state.duration(ENEMY), Some(500));
    assert_eq!(flow, running());
    tick(&mut flow, &Vec::new(), 700, &mut player, &actors, &mut state);
    assert_eq!(player, Some(Health { current: 0, max: 12_000 }));
    assert_eq!(state.duration(ENEMY), Some(1200));
    assert_eq!(flow.game, GameState::GameOver);
}

#[test]
fn a_contact_that_ends_within_the_tick_costs_nothing() {
    let actors = actors();
    let mut flow = running();
    let mut state = CollisionState::new();
    state.begin(ENEMY);
    let mut player = Some(Health::new(12_000));
    let events = vec![CollisionEvent::Stopped(PLAYER, ENEMY)];
    tick(&mut flow, &events, 500, &mut player, &actors, &mut state);
    assert_eq!(player, Some(Health { current: 12_000, max: 12_000 }));
    assert!(state.enemies().is_empty());
}

#[test]
fn nothing_moves_once_the_game_is_over() {
    let actors = actors();
    let mut flow = GameFlow { app: AppState::InGame, game: GameState::GameOver };
    let mut state = CollisionState::new();
    state.begin(ENEMY);
    let mut player = Some(Health { current: 0, max: 12_000 });
    let events = vec![CollisionEvent::Stopped(ENEMY, PLAYER)];
    tick(&mut flow, &events, 500, &mut player, &actors, &mut state);
    assert_eq!(flow.game, GameState::GameOver);
    assert_eq!(player, Some(Health { current: 0, max: 12_000 }));
    assert_eq!(state.duration(ENEMY), Some(0));
}

#[test]
fn nothing_moves_in_the_menu() {
    let actors = actors();
    let mut flow = GameFlow::new();
    let mut state = CollisionState::new();
    let mut player = Some(Health::new(12_000));
    let events = vec![CollisionEvent::Started(ENEMY, PLAYER)];
    tick(&mut flow, &events, 500, &mut player, &actors, &mut state);
    assert_eq!(flow, GameFlow::new());
    assert_eq!(player, Some(Health { current: 12_000, max: 12_000 }));
    assert!(state.enemies().is_empty());
}
