//! `game_kit` provides a suite of helpers to create small games: a seedable
//! random number generation service, the decision rules of the menu and
//! phase framework, and the game rules of the example games built on them.
pub mod flappy;
pub mod menus;
pub mod movement;
pub mod pig;
pub mod random;

pub use random::RandomNumberGenerator;
pub use random::RandomPlugin;
