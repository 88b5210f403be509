//! The source that holds no resources.
use vstd::prelude::*;

use crate::errors::SourceError;
use crate::sources::{Resources, ResourceModel, Source};
use crate::types::AccountId;

verus! {

/// A source with no resources, for any account.
pub struct NullSource;

impl Source for NullSource {
    fn get_resources(&self, account: Option<AccountId>) -> (r: Result<Resources, SourceError>)
        ensures
            r matches Ok(list) && list@ == Seq::<ResourceModel>::empty(),
    {
        Ok(Resources { resources: Vec::new() })
    }
}

} // verus!
