//! Gameplay core of a scrolling bullet-hell shooter: the level timeline, the
//! motion and fire patterns of enemies, life and damage, and the lifebar HUD.
use vstd::prelude::*;

pub mod geometry;
pub mod life;
pub mod collision;
pub mod motion;
pub mod fire;
pub mod controller;
pub mod timeline;
pub mod registry;
pub mod world;
pub mod lifebar;
pub mod menu;
