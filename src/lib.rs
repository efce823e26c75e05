//! Combat core of a vehicle-versus-dinosaur game: the creature AI state
//! machine, weapons and projectiles, hit resolution and damage, and the
//! combo and scoring economy, over fixed-point world geometry.
pub mod ai;
pub mod collision;
pub mod combo;
pub mod damage;
pub mod damage_popup;
pub mod dino;
pub mod effects;
pub mod game_mode;
pub mod geom;
pub mod input;
pub mod pause;
mod random;
pub mod shop;
pub mod sim;
pub mod scoring;
pub mod text;
pub mod timer;
pub mod vehicle;
pub mod weapon;
pub mod weapon_system;
