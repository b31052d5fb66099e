use vstd::prelude::*;

verus! {

/// Credentials, the store's location and the betting site's addresses.
#[derive(Debug, Clone, Default)]
pub struct Config {
    pub username: String,
    pub password: String,
    pub file_db: String,
    pub url_index: String,
    pub url_login: String,
    pub url_state: String,
    pub url_bet: String,
    pub url_referer: String,
}

} // verus!
