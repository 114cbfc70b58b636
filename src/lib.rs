//! Motion and input logic of a small spaceship demo: a sprite that turns,
//! thrusts and wraps around the edges of an 800x600 play field.
pub mod geometry;
pub mod input;
pub mod player;
pub mod view;

pub use geometry::{Point, Rect};
pub use input::{Control, Direction, InputEvent, Key, handle_event, handle_events};
pub use player::{Player, update_player};
pub use view::screen_rect;
