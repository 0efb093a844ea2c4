//! What discovery says of a destination: its name and its policy routes.

use crate::dns::Name;
use crate::labels::{share_labels, Labels};
use std::sync::Arc;
use vstd::prelude::*;

verus! {

/// The discovery profile of a logical destination, as last observed.
///
/// The proxy only reads a profile; discovery alone replaces it.
#[derive(Debug)]
pub struct Profile {
    /// The fully qualified name of the destination, where discovery knows one.
    pub name: Option<Name>,
}

/// A policy route of a profile, with the labels under which its traffic is
/// reported. The labels are shared, not copied, between requests.
#[derive(Debug)]
pub struct Route {
    pub labels: Arc<Labels>,
}

impl Clone for Profile {
    fn clone(&self) -> (r: Self)
        ensures
            r == *self,
    {
        Profile {
            name: match &self.name {
                Some(n) => Some(n.clone()),
                None => None,
            },
        }
    }
}

impl Route {
    /// A route with the given labels.
    pub fn new(labels: Arc<Labels>) -> (route: Route)
        ensures
            route.labels == labels,
    {
        Route { labels }
    }

    /// The labels of the route.
    pub fn labels(&self) -> (labels: &Arc<Labels>)
        ensures
            *labels == self.labels,
    {
        &self.labels
    }
}

impl Clone for Route {
    fn clone(&self) -> (r: Self)
        ensures
            r == *self,
    {
        Route { labels: share_labels(&self.labels) }
    }
}

} // verus!
