//! User entitlements: the licenses, extensions and memberships of users.
use vstd::prelude::*;

pub mod search_user_entitlements;
pub mod add;
pub mod update_user_entitlements;
pub mod get;
pub mod update_user_entitlement;
pub mod delete;

verus! {

/// The operations on this resource, for one client.
#[derive(Clone, Debug)]
pub struct Client(pub crate::client::Client);

impl Client {
    /// Get a paged set of user entitlements matching the filter and sort criteria.
    pub fn search_user_entitlements(&self, organization: String) -> (r: search_user_entitlements::Builder)
        ensures
            r.client@ == self.0@,
            r.organization == organization,
            r.continuation_token is None,
            r.select is None,
            r.filter is None,
            r.order_by is None,
    {
        search_user_entitlements::Builder { client: self.0.clone(), organization, continuation_token: None, select: None, filter: None, order_by: None }
    }

    /// Add a user, assign license and extensions and make them a member of a project group.
    pub fn add(&self, organization: String, body: Vec<u8>) -> (r: add::Builder)
        ensures
            r.client@ == self.0@,
            r.organization == organization,
            r.body == body,
    {
        add::Builder { client: self.0.clone(), organization, body }
    }

    /// Edit the entitlements (license, extensions, projects, teams) of one or more users.
    pub fn update_user_entitlements(&self, organization: String, body: Vec<u8>) -> (r: update_user_entitlements::Builder)
        ensures
            r.client@ == self.0@,
            r.organization == organization,
            r.body == body,
            r.do_not_send_invite_for_new_users is None,
    {
        update_user_entitlements::Builder { client: self.0.clone(), organization, body, do_not_send_invite_for_new_users: None }
    }

    /// Get the entitlements of a user.
    pub fn get(&self, organization: String, user_id: String) -> (r: get::Builder)
        ensures
            r.client@ == self.0@,
            r.organization == organization,
            r.user_id == user_id,
    {
        get::Builder { client: self.0.clone(), organization, user_id }
    }

    /// Edit the entitlements (license, extensions, projects, teams) of a user.
    pub fn update_user_entitlement(&self, organization: String, body: Vec<u8>, user_id: String) -> (r: update_user_entitlement::Builder)
        ensures
            r.client@ == self.0@,
            r.organization == organization,
            r.body == body,
            r.user_id == user_id,
    {
        update_user_entitlement::Builder { client: self.0.clone(), organization, body, user_id }
    }

    /// Delete a user from the account.
    pub fn delete(&self, organization: String, user_id: String) -> (r: delete::Builder)
        ensures
            r.client@ == self.0@,
            r.organization == organization,
            r.user_id == user_id,
    {
        delete::Builder { client: self.0.clone(), organization, user_id }
    }
}

} // verus!
