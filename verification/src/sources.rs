//! Data sources: where the provider finds the resources available to an
//! account.
use vstd::prelude::*;

use crate::errors::SourceError;
use crate::types::{AccountId, ResourceId};

pub mod file;
pub mod null;

verus! {

/// A resource that an account can use.
#[derive(Debug, Clone)]
pub struct Resource {
    pub resource_id: ResourceId,
    pub name: String,
    /// The resource's URL, in its serialized form.
    pub url: String,
    pub description: String,
}

/// A resource as four character sequences.
pub struct ResourceModel {
    pub resource_id: Seq<char>,
    pub name: Seq<char>,
    pub url: Seq<char>,
    pub description: Seq<char>,
}

impl View for Resource {
    type V = ResourceModel;

    open spec fn view(&self) -> ResourceModel {
        ResourceModel {
            resource_id: self.resource_id@,
            name: self.name@,
            url: self.url@,
            description: self.description@,
        }
    }
}

impl Resource {
    /// A copy of the resource.
    pub fn duplicate(&self) -> (r: Resource)
        ensures
            r@ == self@,
    {
        Resource {
            resource_id: self.resource_id.clone(),
            name: self.name.clone(),
            url: self.url.clone(),
            description: self.description.clone(),
        }
    }

    /// Whether the two resources hold the same values.
    pub fn same_as(&self, other: &Resource) -> (r: bool)
        ensures
            r == (self@ == other@),
    {
        self.resource_id == other.resource_id && self.name == other.name && self.url == other.url
            && self.description == other.description
    }
}

/// The list of resources that a source returns.
#[derive(Debug)]
pub struct Resources {
    pub resources: Vec<Resource>,
}

impl View for Resources {
    type V = Seq<ResourceModel>;

    open spec fn view(&self) -> Seq<ResourceModel> {
        self.resources@.map_values(|r: Resource| r@)
    }
}

impl Default for Resources {
    /// No resources.
    fn default() -> (r: Resources)
        ensures
            r@ == Seq::<ResourceModel>::empty(),
    {
        Resources { resources: Vec::new() }
    }
}

/// A source of resources. `account` is the account that asks, if any.
pub trait Source {
    fn get_resources(&self, account: Option<AccountId>) -> Result<Resources, SourceError>;
}

} // verus!
