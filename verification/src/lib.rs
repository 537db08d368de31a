//! Game rules of a night-time fishing game: terminal sequences, hover
//! timers, the monster encounter, the backpack and the player's health.
pub mod terminal;
pub mod states;
pub mod hover;
pub mod monster;
pub mod items;
pub mod backpack;
pub mod health;
pub mod hand;
pub mod assets;
pub mod goal;
pub mod plan;
pub mod dev_tools;
pub mod lake;
pub mod actor;
pub mod timer;
pub mod filter;
