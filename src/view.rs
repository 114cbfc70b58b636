use vstd::prelude::*;

use crate::geometry::{clamp_position, Point, Rect};
use crate::player::Player;

verus! {

/// Half of `v` read as a signed 32-bit value, rounded toward zero.
pub open spec fn signed_half(v: u32) -> int {
    if v <= i32::MAX {
        (v / 2) as int
    } else {
        -((0x1_0000_0000 - v) / 2)
    }
}

fn signed_half_exec(v: u32) -> (r: i32)
    ensures
        r == signed_half(v),
{
    if v <= i32::MAX as u32 {
        (v / 2) as i32
    } else {
        let m: u64 = 4294967296u64 - v as u64;
        -((m / 2) as i32)
    }
}

/// Where the ship lands on a canvas of the given size: the field's origin
/// is the canvas centre.
pub open spec fn screen_center(p: Player, canvas_width: u32, canvas_height: u32) -> (int, int) {
    (
        clamp_position(p.position.x + clamp_position(signed_half(canvas_width))),
        clamp_position(p.position.y + clamp_position(signed_half(canvas_height))),
    )
}

/// The rectangle of the canvas the sprite is drawn into: the sprite's size,
/// centred on the ship's screen position.
pub fn screen_rect(player: &Player, canvas_width: u32, canvas_height: u32) -> (r: Rect)
    requires
        player.sprite.wf(),
    ensures
        r.wf(),
        r.width == player.sprite.width,
        r.height == player.sprite.height,
        r.x == clamp_position(screen_center(*player, canvas_width, canvas_height).0 - r.width / 2),
        r.y == clamp_position(screen_center(*player, canvas_width, canvas_height).1 - r.height / 2),
{
    let origin = Point::new(signed_half_exec(canvas_width), signed_half_exec(canvas_height));
    let center = player.position.offset(origin.x, origin.y);
    Rect::from_center(center, player.sprite.width, player.sprite.height)
}

} // verus!
