//! What the command line can ask for.

use std::path::PathBuf;
use vstd::prelude::*;

verus! {

/// `PathBuf` of std: the path of a file. It is handed on as it comes.
#[verifier::external_type_specification]
#[verifier::external_body]
pub struct ExPathBuf(PathBuf);

/// Command line arguments
#[derive(Debug)]
pub struct Args {
    /// Where the settings come from.
    pub mode: Mode,
}

/// Where the settings come from.
#[derive(Debug)]
pub enum Mode {
    /// Pass settings via command line arguments
    Cli(Parameters),
    /// Load settings from a config file
    ConfigFile {
        /// The path of the config file.
        config_file: PathBuf,
    },
}

/// The settings as they are given on the command line.
#[derive(Debug)]
pub struct Parameters {
    /// The user name of the account.
    pub user_name: String,
    /// The password of the account.
    pub password: String,
    /// The user agent to send with the requests.
    pub user_agent: String,
    /// The timeout of a request, in seconds.
    pub timeout: u64,
    /// What to do with which offers.
    pub action: Action,
}

/// What to do with which offers.
#[derive(Debug)]
pub enum Action {
    /// Activate offers
    Activate {
        /// The offers to activate.
        offers: Vec<u32>,
    },
    /// Bump offers to newest
    Bump {
        /// The offers to bump.
        offers: Vec<u32>,
    },
    /// Deactivate offers
    Deactivate {
        /// The offers to deactivate.
        offers: Vec<u32>,
    },
}

} // verus!
