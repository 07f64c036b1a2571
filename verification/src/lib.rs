//! The simulation core of a side-scrolling arcade shooter: a ship, its
//! bullets, asteroids, explosions and scrolling scenery, the menu and the
//! game as views that give way to each other, and the clock that paces the
//! frames.
//!
//! Every quantity is a whole number. Lengths are counted in millionths of a
//! pixel and durations in microseconds; speeds are whole pixels per second,
//! so that a speed times a duration is a length without rounding. Where a
//! quotient has to be rounded, the contract of the function says how.
//!
//! The crate draws nothing and reads no device. A view is taken through a
//! frame with a snapshot of the input and the size of the window, and says
//! what it wants drawn as a list of plain commands; pictures are known by
//! the handle under which the platform keeps them.

pub mod angle;
pub mod phi;
pub mod views;
