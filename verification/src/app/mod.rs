//! Server app.

pub mod auth;
pub mod state;

pub use self::auth::AdminAuthenticator;
pub use self::state::{AppConfig, AppStateBuilder, BuildError};
