//! The default author identity, read from the user's version-control
//! configuration.

use vstd::prelude::*;

verus! {

/// The configured user identity; a value that is not configured is the
/// empty string.
#[derive(Debug, Clone)]
pub struct GitConfig {
    /// The configured user name.
    pub username: String,
    /// The configured email address.
    pub email: String,
}

#[verifier::external_type_specification]
#[verifier::external_body]
pub struct ExConfig(git2::Config);

/// Relies on `git2::Config::open_default`: opens the default configuration
/// set, or fails when none can be found. What it holds depends on the
/// machine, so nothing is promised of the result.
#[verifier::external_body]
fn open_default_config() -> (c: Option<git2::Config>) {
    git2::Config::open_default().ok()
}

/// Relies on `git2::Config::get_string`: looks a string value up by its
/// key. What is configured depends on the machine, so nothing is promised
/// of the result.
#[verifier::external_body]
fn config_get_string(c: &git2::Config, key: &str) -> (v: Option<String>) {
    c.get_string(key).ok()
}

impl GitConfig {
    /// Loads the configured identity. A missing configuration or key gives
    /// the empty string, exactly as when nothing is configured.
    pub fn load() -> (g: GitConfig) {
        match open_default_config() {
            Some(c) => {
                let username = match config_get_string(&c, "user.name") {
                    Some(s) => s,
                    None => String::new(),
                };
                let email = match config_get_string(&c, "user.email") {
                    Some(s) => s,
                    None => String::new(),
                };
                GitConfig { username, email }
            },
            None => GitConfig { username: String::new(), email: String::new() },
        }
    }
}

} // verus!
