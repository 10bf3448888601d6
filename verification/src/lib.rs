//! Game rules of Yulaven, an arcane survival roguelike: enemy and hero
//! tables, attack and spawn decisions, animation frames, the procedural
//! terrain hash, level-up offers and the screen flow.

pub mod animation;
pub mod character;
pub mod color;
pub mod combat;
pub mod enemy;
pub mod joystick;
pub mod movement;
pub mod state;
pub mod terrain;
pub mod upgrade;
