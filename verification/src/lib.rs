//! Simulation core of a grid-based snake game.
//!
//! The library owns the discrete world state (snake body, food, arena
//! bounds), advances it on fixed movement ticks, resolves boundary and
//! self-collision deaths, food consumption and growth, and performs the
//! full world reset that follows a death. Rendering and input devices are
//! the host's business: the host feeds directional intents in and reads
//! the cell positions back out.

pub mod arena;
pub mod food;
pub mod snake;
pub mod world;
