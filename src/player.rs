use vstd::prelude::*;

use crate::geometry::{clamp_position, Point, Rect, MAX_COORD, MIN_COORD};
use crate::input::Direction;

verus! {

/// Degrees the ship turns in one frame while a turn key is held.
pub const ROTATION_SPEED: i64 = 3;

/// Half the height of the play field.
pub const HALF_FIELD_HEIGHT: i64 = 300;

/// Half the width of the play field.
pub const HALF_FIELD_WIDTH: i64 = 400;

/// Side of the square sprite the ship is drawn with.
pub const SPRITE_SIZE: u32 = 100;

/// The ship. Its velocity lives with the caller: a step takes it, already
/// truncated toward zero to whole units per frame.
#[derive(Clone, Copy, Debug, PartialEq, Eq, Structural)]
pub struct Player {
    /// Origin at the centre of the field; positive `y` points down on screen.
    pub position: Point,
    /// Footprint of the sprite; only its size is read.
    pub sprite: Rect,
    pub direction: Direction,
    /// Heading in whole degrees, accumulated without wrapping.
    pub angle: i64,
}

/// The heading after one frame under direction `d`.
pub open spec fn turned(d: Direction, angle: int) -> int {
    match d {
        Direction::Left => angle - ROTATION_SPEED,
        Direction::Right => angle + ROTATION_SPEED,
        _ => angle,
    }
}

/// A coordinate past `limit` on either side has its sign flipped.
pub open spec fn wrap_coord(v: int, limit: int) -> int {
    if v < -limit || v > limit {
        -v
    } else {
        v
    }
}

/// How far from the origin `x` may go before it wraps.
pub open spec fn x_limit(sprite: Rect) -> int {
    HALF_FIELD_WIDTH + sprite.width / 2
}

/// How far from the origin `y` may go before it wraps.
pub open spec fn y_limit(sprite: Rect) -> int {
    HALF_FIELD_HEIGHT + sprite.height / 2
}

/// The position lies within the wrap limits on both axes.
pub open spec fn in_field(p: Player) -> bool {
    &&& -x_limit(p.sprite) <= p.position.x <= x_limit(p.sprite)
    &&& -y_limit(p.sprite) <= p.position.y <= y_limit(p.sprite)
}

/// The heading along which the ship thrusts this frame, if it does.
pub open spec fn thrust(p: Player) -> Option<int> {
    if p.direction == Direction::Up {
        Some(p.angle as int)
    } else {
        None
    }
}

/// The ship after one frame with velocity `(vx, vy)`: turned, moved by
/// `vx` across and by `vy` against the `y` axis, clamped, then wrapped.
pub open spec fn stepped(p: Player, vx: int, vy: int) -> Player {
    Player {
        position: Point {
            x: wrap_coord(clamp_position(p.position.x + vx), x_limit(p.sprite)) as i32,
            y: wrap_coord(clamp_position(p.position.y - vy), y_limit(p.sprite)) as i32,
        },
        angle: turned(p.direction, p.angle as int) as i64,
        ..p
    }
}

/// Whether `v` lies past `limit` on either side; computed without overflow.
fn beyond(v: i32, limit: u32, field: i64) -> (r: bool)
    requires
        0 <= field <= 1000,
    ensures
        r == (v < -(field + limit / 2) || v > field + limit / 2),
{
    let half: i64 = (limit / 2) as i64;
    (v as i64) < -field - half || (v as i64) > field + half
}

impl Player {
    /// The sprite is a valid rectangle and each coordinate lies in the
    /// clamped range, or one past its top, where a sign flip of its bottom lands.
    pub open spec fn wf(&self) -> bool {
        &&& self.sprite.wf()
        &&& MIN_COORD <= self.position.x <= MAX_COORD + 1
        &&& MIN_COORD <= self.position.y <= MAX_COORD + 1
    }

    /// The ship at rest at the centre of the field, heading up.
    pub fn new() -> (r: Player)
        ensures
            r.position == (Point { x: 0, y: 0 }),
            r.sprite == (Rect { x: 0, y: 0, width: SPRITE_SIZE, height: SPRITE_SIZE }),
            r.direction == Direction::Coast,
            r.angle == 0,
            r.wf(),
    {
        Player {
            position: Point::new(0, 0),
            sprite: Rect::new(0, 0, SPRITE_SIZE, SPRITE_SIZE),
            direction: Direction::Coast,
            angle: 0,
        }
    }

    /// The heading to thrust along this frame: the current angle while the
    /// direction is `Up`, else nothing.
    pub fn thrust_angle(&self) -> (r: Option<i64>)
        ensures
            r matches Some(a) ==> thrust(*self) == Some(a as int),
            r is None ==> thrust(*self) is None,
    {
        match self.direction {
            Direction::Up => Some(self.angle),
            _ => None,
        }
    }
}

/// Advances the ship by one frame: turns it by its direction, moves it by
/// the truncated velocity `(vx, vy)` (`y` decreases by `vy`) and wraps each
/// coordinate that went past its limit.
pub fn update_player(player: &mut Player, vx: i32, vy: i32)
    requires
        old(player).wf(),
        i64::MIN <= turned(old(player).direction, old(player).angle as int) <= i64::MAX,
    ensures
        final(player).wf(),
        *final(player) == stepped(*old(player), vx as int, vy as int),
{
    match player.direction {
        Direction::Left => {
            player.angle = player.angle - ROTATION_SPEED;
        },
        Direction::Right => {
            player.angle = player.angle + ROTATION_SPEED;
        },
        _ => {},
    }
    let dy: i32 = if vy == i32::MIN {
        i32::MAX
    } else {
        -vy
    };
    let moved = player.position.offset(vx, dy);
    assert(moved.y == clamp_position(player.position.y - vy));
    player.position = moved;
    if beyond(player.position.y, player.sprite.height, HALF_FIELD_HEIGHT) {
        player.position.y = -player.position.y;
    }
    if beyond(player.position.x, player.sprite.width, HALF_FIELD_WIDTH) {
        player.position.x = -player.position.x;
    }
}

/// The ship after `n` frames in which it coasts with zero velocity.
pub open spec fn rested(p: Player, n: nat) -> Player
    decreases n,
{
    if n == 0 {
        p
    } else {
        rested(stepped(p, 0, 0), (n - 1) as nat)
    }
}

/// Holding Left turns the ship by exactly the rotation speed one way and
/// Right the other way; neither asks for thrust, so the velocity is kept.
pub proof fn turning_keeps_velocity(p: Player, vx: i32, vy: i32)
    requires
        p.direction == Direction::Left || p.direction == Direction::Right,
        i64::MIN <= turned(p.direction, p.angle as int) <= i64::MAX,
    ensures
        thrust(p) is None,
        p.direction == Direction::Left ==> stepped(p, vx as int, vy as int).angle == p.angle - 3,
        p.direction == Direction::Right ==> stepped(p, vx as int, vy as int).angle == p.angle + 3,
        stepped(p, vx as int, vy as int).direction == p.direction,
{
}

/// A coasting ship keeps its heading, asks for no thrust, and moves by its
/// velocity alone, `y` against the velocity's sign: where the moved point
/// stays within the field it is exactly `(x + vx, y - vy)`.
pub proof fn coasting_moves_by_velocity_only(p: Player, vx: i32, vy: i32)
    requires
        p.wf(),
        p.direction == Direction::Coast,
    ensures
        thrust(p) is None,
        stepped(p, vx as int, vy as int).angle == p.angle,
        stepped(p, vx as int, vy as int).direction == Direction::Coast,
        stepped(p, vx as int, vy as int).sprite == p.sprite,
        in_field(Player { position: Point { x: (p.position.x + vx) as i32, y: (p.position.y - vy) as i32 }, ..p })
            && i32::MIN <= p.position.x + vx <= i32::MAX
            && i32::MIN <= p.position.y - vy <= i32::MAX
            ==> stepped(p, vx as int, vy as int).position == (Point {
            x: (p.position.x + vx) as i32,
            y: (p.position.y - vy) as i32,
        }),
{
}

/// A coasting ship at rest inside the field stays where it is, with the
/// same heading, for any number of frames.
pub proof fn resting_ship_stays(p: Player, n: nat)
    requires
        p.wf(),
        p.direction == Direction::Coast,
        in_field(p),
    ensures
        rested(p, n) == p,
    decreases n,
{
    if n > 0 {
        assert(stepped(p, 0, 0) == p);
        resting_ship_stays(p, (n - 1) as nat);
    }
}

} // verus!
