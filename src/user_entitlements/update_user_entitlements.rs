//! Edit the entitlements (license, extensions, projects, teams) of one or more users.
use vstd::prelude::*;
use crate::http::{HttpRequest, QueryParam, bool_opt_text, bool_param, opt_view, params_view};
use crate::operation::{
    api_version_name, build_request, distinct_names, is_request, no_version_param, Operation,
};
use crate::response::{decode_response, response_outcome, ApiError, Payload};

verus! {

/// The parameters of one request, collected before it is built.
#[derive(Clone, Debug)]
pub struct Builder {
    pub client: crate::client::Client,
    pub organization: String,
    pub body: Vec<u8>,
    pub do_not_send_invite_for_new_users: Option<bool>,
}

impl Builder {
    pub open spec fn spec_path(&self) -> Seq<char> {
        "userentitlements"@
    }

    pub open spec fn spec_params(&self) -> Seq<(Seq<char>, Option<Seq<char>>)> {
        seq![("doNotSendInviteForNewUsers"@, bool_opt_text(self.do_not_send_invite_for_new_users))]
    }

    /// Whether to skip the email invitation of new users.
    pub fn do_not_send_invite_for_new_users(self, do_not_send_invite_for_new_users: bool) -> (r: Self)
        ensures
            r == (Builder { do_not_send_invite_for_new_users: Some(do_not_send_invite_for_new_users), ..self }),
    {
        Builder { do_not_send_invite_for_new_users: Some(do_not_send_invite_for_new_users), ..self }
    }

    /// The request, given what the credential answered.
    pub fn request(&self, authorization: Option<String>) -> (r: HttpRequest)
        ensures
            is_request(
                r,
                Operation::UpdateUserEntitlements,
                self.client.endpoint@,
                self.organization@,
                self.spec_path(),
                self.spec_params(),
                opt_view(authorization),
                self.body@,
            ),
            distinct_names(self.spec_params()),
            no_version_param(self.spec_params()),
    {
        proof {
            reveal_strlit("userentitlements");
            reveal_strlit("api-version");
            reveal_strlit("doNotSendInviteForNewUsers");
            assert(self.spec_params()[0].0.len() != api_version_name().len());
        }
        let path = "userentitlements".to_owned();
        let mut params: Vec<QueryParam> = Vec::new();
        params.push(bool_param("doNotSendInviteForNewUsers", self.do_not_send_invite_for_new_users));
        assert(params_view(params@) =~= self.spec_params());
        let body = self.body.clone();
        assert(body@ =~= self.body@);
        build_request(
            Operation::UpdateUserEntitlements,
            self.client.endpoint.as_str(),
            self.organization.as_str(),
            path.as_str(),
            &params,
            authorization,
            body,
        )
    }

    /// The operation that this builder describes.
    pub fn operation(&self) -> (r: Operation)
        ensures
            r == Operation::UpdateUserEntitlements,
    {
        Operation::UpdateUserEntitlements
    }

    /// What the response with `status` and `body` means.
    pub fn response(&self, status: u16, body: &[u8]) -> (r: Result<Payload, ApiError>)
        ensures
            response_outcome(Operation::UpdateUserEntitlements, status, body@, r),
    {
        decode_response(Operation::UpdateUserEntitlements, status, body)
    }
}

} // verus!
