//! Reward logic for a Counter-Strike 2 companion that plays sounds and drives
//! toys through Intiface when the player gets kills or wins rounds.

pub mod config;
pub mod gamestateintegration;
pub mod gui;
pub mod intiface;
pub mod intiface_session_controller;
pub mod rewards;
pub mod sounds;
pub mod text;
