//! The summary of licenses, extensions, projects and groups in an organization.
use vstd::prelude::*;

pub mod get;

verus! {

/// The operations on this resource, for one client.
#[derive(Clone, Debug)]
pub struct Client(pub crate::client::Client);

impl Client {
    /// Get the summary of licenses, extensions, projects, groups and their assignments.
    pub fn get(&self, organization: String) -> (r: get::Builder)
        ensures
            r.client@ == self.0@,
            r.organization == organization,
            r.select is None,
    {
        get::Builder { client: self.0.clone(), organization, select: None }
    }
}

} // verus!
