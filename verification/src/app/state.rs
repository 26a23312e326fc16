//! Server app state.

use vstd::prelude::*;

use crate::app::auth::AdminAuthenticator;

verus! {

/// What the server needs to know before it can start, every part of it
/// present.
#[derive(Debug, Clone)]
pub struct AppConfig {
    /// Database URL.
    pub database_url: String,
    /// Admin authenticator.
    pub admin_auth: AdminAuthenticator,
}

/// A part that the builder was not given.
#[derive(Debug, Clone, Copy, PartialEq, Eq, Hash, Structural)]
pub enum BuildError {
    /// No database URL was set.
    MissingDatabaseUrl,
    /// No admin authenticator was set.
    MissingAdminAuth,
}

/// `AppState` builder.
///
/// This type should be used to initialize `AppState`.
///
/// `AppState` may have many types of fields and may require complex
/// initialization.
/// `AppStateBuilder` makes it easy for developers to set variety of fields and
/// does some initialization if necessary.
#[derive(Debug, Clone)]
pub struct AppStateBuilder {
    /// Database URL.
    database_url: Option<String>,
    /// Admin authenticator.
    admin_auth: Option<AdminAuthenticator>,
}

impl BuildError {
    /// The error in words.
    pub open spec fn spec_message(&self) -> Seq<char> {
        match self {
            BuildError::MissingDatabaseUrl => "`database_url` field is required but not set"@,
            BuildError::MissingAdminAuth => "`admin_auth` field is required but not set"@,
        }
    }

    /// The error in words.
    pub fn message(&self) -> (text: &'static str)
        ensures
            text@ == self.spec_message(),
    {
        match self {
            BuildError::MissingDatabaseUrl => "`database_url` field is required but not set",
            BuildError::MissingAdminAuth => "`admin_auth` field is required but not set",
        }
    }
}

impl AppStateBuilder {
    /// The database URL set so far.
    pub closed spec fn spec_database_url(&self) -> Option<String> {
        self.database_url
    }

    /// The admin authenticator set so far.
    pub closed spec fn spec_admin_auth(&self) -> Option<AdminAuthenticator> {
        self.admin_auth
    }

    /// Creates a new `AppStateBuilder`, with nothing set.
    pub fn new() -> (builder: Self)
        ensures
            builder.spec_database_url() is None,
            builder.spec_admin_auth() is None,
    {
        Self { database_url: None, admin_auth: None }
    }

    /// Sets `database_url` field with the given database URL.
    ///
    /// This setter does not do any DB operation, such as I/O operations and
    /// connection pool initialization.
    pub fn database_url(self, database_url: String) -> (builder: Self)
        ensures
            builder.spec_database_url() == Some(database_url),
            builder.spec_admin_auth() == self.spec_admin_auth(),
    {
        Self { database_url: Some(database_url), admin_auth: self.admin_auth }
    }

    /// Sets the given authenticator to `admin_auth` field.
    pub fn admin_auth(self, admin_auth: AdminAuthenticator) -> (builder: Self)
        ensures
            builder.spec_admin_auth() == Some(admin_auth),
            builder.spec_database_url() == self.spec_database_url(),
    {
        Self { database_url: self.database_url, admin_auth: Some(admin_auth) }
    }

    /// Checks that every part is set and hands the parts out.  The database
    /// URL is asked for first, the admin authenticator second.
    pub fn build(self) -> (built: Result<AppConfig, BuildError>)
        ensures
            built == match (self.spec_database_url(), self.spec_admin_auth()) {
                (None, _) => Err::<AppConfig, BuildError>(BuildError::MissingDatabaseUrl),
                (Some(_), None) => Err(BuildError::MissingAdminAuth),
                (Some(database_url), Some(admin_auth)) => Ok(
                    AppConfig { database_url, admin_auth },
                ),
            },
    {
        match self.database_url {
            None => Err(BuildError::MissingDatabaseUrl),
            Some(database_url) => match self.admin_auth {
                None => Err(BuildError::MissingAdminAuth),
                Some(admin_auth) => Ok(AppConfig { database_url, admin_auth }),
            },
        }
    }
}

impl Default for AppStateBuilder {
    fn default() -> (builder: Self)
        ensures
            builder.spec_database_url() is None,
            builder.spec_admin_auth() is None,
    {
        Self { database_url: None, admin_auth: None }
    }
}

} // verus!
