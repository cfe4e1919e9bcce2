//! What the game tells the screen and takes from the keys.

use vstd::prelude::*;

use crate::health::Health;

verus! {

/// The direction keys that are held down.
#[derive(Debug, PartialEq, Eq, Clone, Copy, Structural)]
pub struct Directions {
    pub up: bool,
    pub down: bool,
    pub left: bool,
    pub right: bool,
}

/// The width of the full health bar, in thousandths of a pixel.
pub const HEALTH_BAR_WIDTH: u64 = 32_000;

/// The smaller side of the window, in pixels, at which actors are drawn at
/// their own size.
pub const BASE_SIZE: u64 = 500;

/// One step along an axis: forward, back, or, with both keys or none, nowhere.
pub open spec fn axis(forward: bool, back: bool) -> int {
    (if forward {
        1int
    } else {
        0int
    }) - (if back {
        1int
    } else {
        0int
    })
}

/// The way the held keys point, right and up counted positive; `None` where
/// they point nowhere.
pub open spec fn spec_movement(keys: Directions) -> Option<(i32, i32)> {
    if axis(keys.right, keys.left) == 0 && axis(keys.up, keys.down) == 0 {
        None
    } else {
        Some((axis(keys.right, keys.left) as i32, axis(keys.up, keys.down) as i32))
    }
}

/// Reads the direction in which the player is to move off the held keys.
/// Opposite keys cancel; the length of the step is not settled here.
#[verifier::when_used_as_spec(spec_movement)]
pub fn movement(keys: Directions) -> (direction: Option<(i32, i32)>)
    ensures
        direction == spec_movement(keys),
{
    let mut x: i32 = 0;
    let mut y: i32 = 0;
    if keys.left {
        x -= 1;
    }
    if keys.right {
        x += 1;
    }
    if keys.up {
        y += 1;
    }
    if keys.down {
        y -= 1;
    }
    if x == 0 && y == 0 {
        None
    } else {
        Some((x, y))
    }
}

/// The factor by which actors are drawn larger or smaller, in thousandths:
/// the smaller side of the window over the base size.
pub fn calculate_scale(width: u32, height: u32) -> (scale: u64)
    ensures
        scale == vstd::math::min(width as int, height as int) * 1000 / (BASE_SIZE as int),
        scale == 2 * vstd::math::min(width as int, height as int),
{
    let smallest_dimension: u64 = if width < height {
        width as u64
    } else {
        height as u64
    };
    smallest_dimension * 1000 / BASE_SIZE
}

/// The width of the health bar for `health`, in thousandths of a pixel: the
/// full width times the share of health that is left, rounded down.
pub fn update_health_bar(health: &Health) -> (width: u64)
    requires
        health.wf(),
    ensures
        width == HEALTH_BAR_WIDTH * health.current / (health.max as int),
        width <= HEALTH_BAR_WIDTH,
        width == 0 <==> health.current * HEALTH_BAR_WIDTH < health.max,
{
    let scaled: u128 = (HEALTH_BAR_WIDTH as u128) * (health.current as u128);
    let width: u128 = scaled / (health.max as u128);
    proof {
        let c = health.current as int;
        let m = health.max as int;
        assert(32_000 * c / m <= 32_000) by (nonlinear_arith)
            requires
                0 <= c <= m,
                m > 0,
        ;
        assert((32_000 * c / m == 0) <==> (c * 32_000 < m)) by (nonlinear_arith)
            requires
                0 <= c,
                m > 0,
        ;
    }
    width as u64
}

} // verus!
