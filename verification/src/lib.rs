//! Game rules of a side-scrolling runner: the player jumps between three
//! lanes, shoots enemies that scroll in from the right and picks up ammo.
//! Everything here works on plain integers; drawing, input, timing and
//! collision geometry belong to the program that drives the rules.
#![allow(non_camel_case_types)]
#![allow(non_snake_case)]

pub mod components;
pub mod random;
pub mod enemy;
pub mod ammo_drop;
pub mod player;
pub mod combat;
