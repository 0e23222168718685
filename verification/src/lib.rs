//! Authorization and score integrity for a game leaderboard service.
//!
//! Administrators hold short-lived capability tokens; anonymous players sign
//! each score with a per-player secret. Every rule the service applies to a
//! token or a submission lives here, verified against the contracts of the
//! cryptographic crates it calls.

pub mod auth_admin;
pub mod client;
pub mod clock;
pub mod configuration;
pub mod domains;
pub mod encoding;
pub mod error;
pub mod ids;
pub mod keys;
pub mod random_name;
pub mod token;
