//! Group entitlements: the license and extension rules of a group.
use vstd::prelude::*;

pub mod list;
pub mod add;
pub mod get;
pub mod update;
pub mod delete;

verus! {

/// The operations on this resource, for one client.
#[derive(Clone, Debug)]
pub struct Client(pub crate::client::Client);

impl Client {
    /// Get the group entitlements for an account.
    pub fn list(&self, organization: String) -> (r: list::Builder)
        ensures
            r.client@ == self.0@,
            r.organization == organization,
    {
        list::Builder { client: self.0.clone(), organization }
    }

    /// Create a group entitlement with license rule, extension rule.
    pub fn add(&self, organization: String, body: Vec<u8>) -> (r: add::Builder)
        ensures
            r.client@ == self.0@,
            r.organization == organization,
            r.body == body,
            r.rule_option is None,
    {
        add::Builder { client: self.0.clone(), organization, body, rule_option: None }
    }

    /// Get a group entitlement.
    pub fn get(&self, organization: String, group_id: String) -> (r: get::Builder)
        ensures
            r.client@ == self.0@,
            r.organization == organization,
            r.group_id == group_id,
    {
        get::Builder { client: self.0.clone(), organization, group_id }
    }

    /// Update entitlements (license rule, extension rule, project memberships) for a group.
    pub fn update(&self, organization: String, body: Vec<u8>, group_id: String) -> (r: update::Builder)
        ensures
            r.client@ == self.0@,
            r.organization == organization,
            r.body == body,
            r.group_id == group_id,
            r.rule_option is None,
    {
        update::Builder { client: self.0.clone(), organization, body, group_id, rule_option: None }
    }

    /// Delete a group entitlement.
    pub fn delete(&self, organization: String, group_id: String) -> (r: delete::Builder)
        ensures
            r.client@ == self.0@,
            r.organization == organization,
            r.group_id == group_id,
            r.rule_option is None,
            r.remove_group_membership is None,
    {
        delete::Builder { client: self.0.clone(), organization, group_id, rule_option: None, remove_group_membership: None }
    }
}

} // verus!
