//! The entities of the service and the rules that apply to them.

pub mod admin;
pub mod admin_site;
pub mod config;
pub mod leaderboard;
pub mod oauth;
pub mod player;
pub mod score;
pub mod submission;
