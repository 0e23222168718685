//! What the server tells a browser about its configuration.

use vstd::prelude::*;
use crate::configuration::Settings;

verus! {

/// The public part of the OAuth configuration.
pub struct OauthConfig {
    pub github_app_id: String,
}

/// The public part of the OAuth configuration: the application's client
/// identifier, and nothing of its secret.
pub fn get_oauth_config(config: &Settings) -> (public: OauthConfig)
    ensures
        public.github_app_id@ == config.github_admin_app.client_id@,
{
    OauthConfig { github_app_id: config.github_admin_app.client_id.clone() }
}

} // verus!
