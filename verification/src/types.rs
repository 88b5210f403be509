//! Identifiers used by the data sources.
use vstd::prelude::*;

verus! {

/// The identifier of a provider.
pub type ProviderId = String;

/// The identifier of an account (the subject of an access token).
pub type AccountId = String;

/// The identifier of a resource.
pub type ResourceId = String;

} // verus!
