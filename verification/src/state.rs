//! What the running service knows about itself.
use vstd::prelude::*;

use crate::config::ApplicationConfig;

verus! {

/// The configuration and the build information of the running service.
pub struct AppState {
    pub config: ApplicationConfig,
    pub version: String,
    pub rust_version: String,
    pub commit: String,
}

fn or_default(found: Option<String>, default: &str) -> (r: String)
    ensures
        match found {
            Some(v) => r@ == v@,
            None => r@ == default@,
        },
{
    match found {
        Some(v) => v,
        None => String::from_str(default),
    }
}

/// The service's version: the value of its variable, or `0.0.0` when the
/// variable is not set.
pub fn get_version(from_environment: Option<String>) -> (r: String)
    ensures
        match from_environment {
            Some(v) => r@ == v@,
            None => r@ == "0.0.0"@,
        },
{
    or_default(from_environment, "0.0.0")
}

/// The Rust version the service was built with: the value of its variable,
/// or `0.0.0` when the variable is not set.
pub fn get_rust_version(from_environment: Option<String>) -> (r: String)
    ensures
        match from_environment {
            Some(v) => r@ == v@,
            None => r@ == "0.0.0"@,
        },
{
    or_default(from_environment, "0.0.0")
}

/// The commit the service was built from: the value of its variable, or
/// `0000000` when the variable is not set.
pub fn get_commit(from_environment: Option<String>) -> (r: String)
    ensures
        match from_environment {
            Some(v) => r@ == v@,
            None => r@ == "0000000"@,
        },
{
    or_default(from_environment, "0000000")
}

} // verus!
