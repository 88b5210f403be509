//! Core of the TMS resources provider: configuration values, the error
//! model and its HTTP replies, the data sources that list the resources
//! available to an account, and the start-up banner.
use vstd::prelude::*;

pub mod auth;
pub mod banner;
pub mod config;
pub mod errors;
pub mod sources;
pub mod state;
pub mod text;
pub mod types;

verus! {

} // verus!
