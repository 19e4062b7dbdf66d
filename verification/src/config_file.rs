//! What a configuration file holds.

use vstd::prelude::*;

pub use account::Account;

pub mod account;

verus! {

/// Configuration file content.
#[derive(Debug, Eq, Hash, PartialEq)]
pub struct ConfigFile {
    /// The accounts, in the order of the file.
    pub accounts: Vec<Account>,
}

} // verus!
