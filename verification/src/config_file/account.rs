use vstd::prelude::*;

verus! {

/// Per-account settings.
#[derive(Debug, Eq, Hash, PartialEq)]
pub struct Account {
    /// The user name of the account.
    pub user_name: String,
    /// The password of the account.
    pub password: String,
    /// The user agent to send with the requests, if it is not to be the usual one.
    pub user_agent: Option<String>,
    /// The timeout of a request in seconds, if it is not to be the usual one.
    pub timeout_sec: Option<u64>,
    /// The offers to activate.
    pub activate: Vec<u32>,
    /// The offers to bump.
    pub bump: Vec<u32>,
    /// The offers to deactivate.
    pub deactivate: Vec<u32>,
}

} // verus!
