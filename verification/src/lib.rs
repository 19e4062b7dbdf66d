//! Updates the visibility of offers on wg-gesucht.de.
//!
//! The site has no public interface. A run logs in, puts the credentials of the session
//! together from the cookies of the login and from two attributes on the page that lists the
//! user's offers, and then deactivates, activates and bumps offers by their numbers. An offer
//! that fails does not stop the run: the failures are gathered and handed out at the end.
//!
//! Nothing in this library touches the network. It says which request is to be sent next and
//! takes the answer: [`Settings::apply`] gives the first [`settings::Step`] of a run, and
//! [`settings::Run::receive`] each further one, until the run is over. Whoever drives it
//! sends the requests, with a client that keeps the cookies of the login for the requests
//! that follow.

pub use args::Args;
pub use client::{Client, Session};
pub use error::{Error, FailedUpdates};
pub use settings::Settings;

pub mod args;
pub mod auth_data;
pub mod client;
pub mod config_file;
pub mod error;
pub mod functions;
pub mod html_ext;
pub mod login_data;
pub mod patch_data;
pub mod pipeline;
pub mod response_ext;
pub mod settings;
pub mod transport;
