//! Movement intent and position integration.
//!
//! Directions come in as eight booleans (four logical directions, two key
//! bindings each). They fold into a raw intent vector with each axis in
//! {-1, 0, +1}; opposing presses cancel. The raw vector is normalized to
//! unit length in fixed point: a unit is 1000 thousandths, and a diagonal
//! component is 707 thousandths (1000 / sqrt(2), rounded), so a non-zero
//! intent always has squared magnitude within rounding of one. The delta
//! added to the position each tick is intent times speed times elapsed
//! time, all in exact integer arithmetic over millipixels.

use vstd::prelude::*;

verus! {

/// One thousand thousandths: the fixed-point value of 1.0.
pub const INTENT_UNIT: i64 = 1000;

/// 1000 / sqrt(2), rounded: the magnitude of each axis of a diagonal
/// unit vector, in thousandths.
pub const INTENT_DIAG: i64 = 707;

/// The controlled entity: its world position in millipixels and whether
/// its sprite is currently mirrored horizontally.
pub struct Player {
    pub x: i64,
    pub y: i64,
    pub flip_x: bool,
}

/// The currently pressed logical directions.
#[derive(Clone, Copy, Debug, PartialEq, Eq, Structural)]
pub struct DirectionKeys {
    pub up: bool,
    pub down: bool,
    pub left: bool,
    pub right: bool,
}

impl DirectionKeys {
    /// Folds the two bindings of each direction into its logical
    /// direction: a direction is pressed when either binding is.
    pub fn fold_bindings(
        up_primary: bool,
        up_alternate: bool,
        down_primary: bool,
        down_alternate: bool,
        left_primary: bool,
        left_alternate: bool,
        right_primary: bool,
        right_alternate: bool,
    ) -> (keys: DirectionKeys)
        ensures
            keys.up == (up_primary || up_alternate),
            keys.down == (down_primary || down_alternate),
            keys.left == (left_primary || left_alternate),
            keys.right == (right_primary || right_alternate),
    {
        DirectionKeys {
            up: up_primary || up_alternate,
            down: down_primary || down_alternate,
            left: left_primary || left_alternate,
            right: right_primary || right_alternate,
        }
    }
}

/// Raw horizontal intent: +1 for right, -1 for left, opposing presses
/// cancel to 0.
pub open spec fn raw_intent_x(keys: DirectionKeys) -> int {
    (if keys.right {
        1int
    } else {
        0int
    }) - (if keys.left {
        1int
    } else {
        0int
    })
}

/// Raw vertical intent: +1 for up, -1 for down, opposing presses cancel.
pub open spec fn raw_intent_y(keys: DirectionKeys) -> int {
    (if keys.up {
        1int
    } else {
        0int
    }) - (if keys.down {
        1int
    } else {
        0int
    })
}

/// The normalized horizontal intent in thousandths: 0 when the raw vector
/// is zero on this axis, a full unit when the other axis is zero, and a
/// diagonal component otherwise.
pub open spec fn norm_intent_x(keys: DirectionKeys) -> int {
    if raw_intent_x(keys) == 0 {
        0
    } else if raw_intent_y(keys) == 0 {
        raw_intent_x(keys) * (INTENT_UNIT as int)
    } else {
        raw_intent_x(keys) * (INTENT_DIAG as int)
    }
}

/// The normalized vertical intent in thousandths.
pub open spec fn norm_intent_y(keys: DirectionKeys) -> int {
    if raw_intent_y(keys) == 0 {
        0
    } else if raw_intent_x(keys) == 0 {
        raw_intent_y(keys) * (INTENT_UNIT as int)
    } else {
        raw_intent_y(keys) * (INTENT_DIAG as int)
    }
}

/// Computes the normalized intent vector of the pressed directions.
pub fn normalized_intent(keys: DirectionKeys) -> (n: (i64, i64))
    ensures
        n.0 == norm_intent_x(keys),
        n.1 == norm_intent_y(keys),
{
    let ix: i64 = (if keys.right {
        1i64
    } else {
        0i64
    }) - (if keys.left {
        1i64
    } else {
        0i64
    });
    let iy: i64 = (if keys.up {
        1i64
    } else {
        0i64
    }) - (if keys.down {
        1i64
    } else {
        0i64
    });
    if ix == 0 && iy == 0 {
        (0, 0)
    } else if iy == 0 {
        (ix * INTENT_UNIT, 0)
    } else if ix == 0 {
        (0, iy * INTENT_UNIT)
    } else {
        (ix * INTENT_DIAG, iy * INTENT_DIAG)
    }
}

/// Unit magnitude: the normalized intent is the zero vector exactly when
/// the raw intent is, and otherwise its squared magnitude lies within
/// rounding of one squared unit: between 999698 and 1000000 thousandths
/// squared (2 * 707 * 707 on a diagonal, 1000 * 1000 on an axis).
pub proof fn lemma_intent_magnitude(keys: DirectionKeys)
    ensures
        (norm_intent_x(keys) == 0 && norm_intent_y(keys) == 0) <==> (raw_intent_x(keys) == 0
            && raw_intent_y(keys) == 0),
        !(raw_intent_x(keys) == 0 && raw_intent_y(keys) == 0) ==> 999698 <= norm_intent_x(keys)
            * norm_intent_x(keys) + norm_intent_y(keys) * norm_intent_y(keys) <= 1000000,
{
    let ix = raw_intent_x(keys);
    let iy = raw_intent_y(keys);
    let nx = norm_intent_x(keys);
    let ny = norm_intent_y(keys);
    if !(ix == 0 && iy == 0) {
        assert((nx == 1000 && ny == 0) || (nx == -1000 && ny == 0) || (nx == 0 && ny == 1000) || (
        nx == 0 && ny == -1000) || ((nx == 707 || nx == -707) && (ny == 707 || ny == -707)));
        assert(999698 <= nx * nx + ny * ny <= 1000000) by (nonlinear_arith)
            requires
                (nx == 1000 && ny == 0) || (nx == -1000 && ny == 0) || (nx == 0 && ny == 1000) || (
                nx == 0 && ny == -1000) || ((nx == 707 || nx == -707) && (ny == 707 || ny
                    == -707)),
        ;
    }
}

/// The position delta along one axis, in millipixels: the intent component
/// `n` (thousandths) times the speed (pixels per second) times the elapsed
/// time (milliseconds), scaled back by one factor of 1000. Rounds toward
/// zero, so a tick never moves farther than the exact product.
pub open spec fn scaled_delta_spec(n: int, speed: int, dt_ms: int) -> int {
    if n >= 0 {
        (n * speed * dt_ms) / 1000
    } else {
        -(((-n) * speed * dt_ms) / 1000)
    }
}

/// Computes one axis of the position delta.
pub fn scaled_delta(n: i64, speed: i64, dt_ms: i64) -> (delta: i64)
    requires
        -1000 <= n <= 1000,
        0 <= speed <= 1_000_000,
        0 <= dt_ms <= 86_400_000,
    ensures
        delta == scaled_delta_spec(n as int, speed as int, dt_ms as int),
        -86_400_000_000_000 <= delta <= 86_400_000_000_000,
{
    proof {
        assert((n >= 0 ==> 0 <= n * speed <= 1_000_000_000 && 0 <= n * speed * dt_ms
            <= 86_400_000_000_000_000) && (n < 0 ==> 0 <= (-n) * speed <= 1_000_000_000 && 0 <= (-n)
            * speed * dt_ms <= 86_400_000_000_000_000)) by (nonlinear_arith)
            requires
                -1000 <= n <= 1000,
                0 <= speed <= 1_000_000,
                0 <= dt_ms <= 86_400_000,
        ;
    }
    if n >= 0 {
        n * speed * dt_ms / 1000
    } else {
        -((-n) * speed * dt_ms / 1000)
    }
}

/// One movement tick, mirroring one frame of the per-tick controller:
/// integrates the normalized intent of the pressed directions into the
/// player position, and updates the sprite mirror flag from the sign of
/// the horizontal intent — leaving it unchanged on vertical-only movement.
pub fn player_movement_tick(player: &mut Player, keys: DirectionKeys, speed: i64, dt_ms: i64)
    requires
        0 <= speed <= 1_000_000,
        0 <= dt_ms <= 86_400_000,
        i64::MIN as int <= old(player).x + scaled_delta_spec(
            norm_intent_x(keys),
            speed as int,
            dt_ms as int,
        ) <= i64::MAX as int,
        i64::MIN as int <= old(player).y + scaled_delta_spec(
            norm_intent_y(keys),
            speed as int,
            dt_ms as int,
        ) <= i64::MAX as int,
    ensures
        final(player).x == old(player).x + scaled_delta_spec(
            norm_intent_x(keys),
            speed as int,
            dt_ms as int,
        ),
        final(player).y == old(player).y + scaled_delta_spec(
            norm_intent_y(keys),
            speed as int,
            dt_ms as int,
        ),
        norm_intent_x(keys) < 0 ==> final(player).flip_x == true,
        norm_intent_x(keys) > 0 ==> final(player).flip_x == false,
        norm_intent_x(keys) == 0 ==> final(player).flip_x == old(player).flip_x,
{
    let (nx, ny) = normalized_intent(keys);
    let dx = scaled_delta(nx, speed, dt_ms);
    let dy = scaled_delta(ny, speed, dt_ms);
    player.x = player.x + dx;
    player.y = player.y + dy;
    if nx < 0 {
        player.flip_x = true;
    } else if nx > 0 {
        player.flip_x = false;
    }
}

} // verus!
