//! Members of a group.
use vstd::prelude::*;

pub mod get;
pub mod add;
pub mod remove_member_from_group;

verus! {

/// The operations on this resource, for one client.
#[derive(Clone, Debug)]
pub struct Client(pub crate::client::Client);

impl Client {
    /// Get direct members of a group.
    pub fn get(&self, organization: String, group_id: String) -> (r: get::Builder)
        ensures
            r.client@ == self.0@,
            r.organization == organization,
            r.group_id == group_id,
            r.max_results is None,
            r.paging_token is None,
    {
        get::Builder { client: self.0.clone(), organization, group_id, max_results: None, paging_token: None }
    }

    /// Add a member to a group.
    pub fn add(&self, organization: String, group_id: String, member_id: String) -> (r: add::Builder)
        ensures
            r.client@ == self.0@,
            r.organization == organization,
            r.group_id == group_id,
            r.member_id == member_id,
    {
        add::Builder { client: self.0.clone(), organization, group_id, member_id }
    }

    /// Remove a member from a group.
    pub fn remove_member_from_group(&self, organization: String, group_id: String, member_id: String) -> (r: remove_member_from_group::Builder)
        ensures
            r.client@ == self.0@,
            r.organization == organization,
            r.group_id == group_id,
            r.member_id == member_id,
    {
        remove_member_from_group::Builder { client: self.0.clone(), organization, group_id, member_id }
    }
}

} // verus!
