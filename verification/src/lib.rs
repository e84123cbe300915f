//! The rules of a small top-down shooter, kept apart from any engine: which
//! weapon is in hand, how rounds move between reserve and magazine, what a
//! trigger pull comes to, how far a projectile gets before it is dropped, and
//! which terms drive the player's velocity. Everything here works on integers
//! and flags, and every function carries a proved contract.

pub mod camera;
pub mod entity;
pub mod tick;
pub mod ui;
