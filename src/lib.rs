//! Authenticated session and resource client for the Timeular time-tracking API.
//!
//! The library decides; its host performs the network calls. Every operation
//! is a sequence of steps: the session hands out a request, the host sends it
//! and hands back the reply, and the session decides what comes next.
pub mod color;
pub mod data;
pub mod error;
pub mod transport;
pub mod settings;
pub mod auth;
pub mod session;

pub use auth::{create_auth_data, TimeularAuth, TimeularCredentials};
pub use error::{ConfigurationError, Error};
pub use session::{Outcome, Step, Timeular};
pub use settings::{Alias, Authentication, Settings};
