//! Game rules of a small tile arena: the layout of the wall grid, how held
//! arrow keys move the player, what happens when the player touches a
//! collider, and the health counters that player and enemy carry.
pub mod collision;
pub mod grid;
pub mod health;
pub mod movement;
