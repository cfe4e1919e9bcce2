//! Rules of a small top-down survival game, kept apart from any engine.
//!
//! Everything here is whole-number arithmetic. Time is counted in
//! microseconds, a damage rate in health points per second, and health in
//! millionths of a point, so that a rate times an elapsed time is a loss of
//! health with nothing rounded away. Noise values and sizes on screen are
//! counted in thousandths. Actors are named by 64-bit identifiers that the
//! surrounding program hands out.

pub mod actors;
pub mod collision;
pub mod contact;
pub mod damage;
pub mod health;
pub mod plugins;
pub mod schedule;
pub mod screen;
pub mod session;
pub mod state;
pub mod terrain;

pub use actors::{Actors, Enemy};
pub use collision::{contact_enemy, handle_collision, handle_collisions, CollisionEvent};
pub use contact::CollisionState;
pub use damage::handle_damage;
pub use health::Health;
pub use plugins::{
    CollisionPlugin, CorePlugin, DamagePlugin, EnemyPlugin, GameOverPlugin, MapPlugin, PlayerPlugin,
};
pub use schedule::{transition_stages, update_stage, Schedule, Stage, System};
pub use screen::{calculate_scale, movement, update_health_bar, Directions};
pub use session::tick;
pub use state::{check_health, menu, AppState, ButtonColor, GameFlow, GameState, Interaction};
pub use terrain::{classify, normalized, NoisePoint, Ratio, TileMap, TileType};
