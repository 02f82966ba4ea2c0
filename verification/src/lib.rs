//! A small arcade game, decided tick by tick: a bird falls under gravity,
//! flaps on a key, and has to fly through the gaps of the walls that come
//! towards it. The game reads no key and draws nothing itself: a tick takes
//! the key and the time gone by, and hands back what to draw.

use vstd::prelude::*;

pub mod caption;
pub mod glyph;
pub mod laws;
pub mod obstacle;
pub mod player;
pub mod random;
pub mod screen;
pub mod state;
