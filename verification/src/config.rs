//! What the poller is configured with.

use vstd::prelude::*;

verus! {

/// The settings of one poller: the provider's API token, the record to keep
/// (`subdomain` within the zone of `domain`), the seconds between two passes,
/// and the router to ask for the public address.
#[derive(Clone, Debug, PartialEq, Eq)]
pub struct CliConfig {
    pub api_token: String,
    pub domain: String,
    pub subdomain: String,
    pub interval: u32,
    pub ubus_url: String,
    pub ubus_user: String,
    pub ubus_secret: String,
}

} // verus!
