//! Add a user, assign license and extensions and make them a member of a project group.
use vstd::prelude::*;
use crate::http::{HttpRequest, QueryParam, opt_view, params_view};
use crate::operation::{build_request, distinct_names, is_request, no_version_param, Operation};
use crate::response::{decode_response, response_outcome, ApiError, Payload};

verus! {

/// The parameters of one request, collected before it is built.
#[derive(Clone, Debug)]
pub struct Builder {
    pub client: crate::client::Client,
    pub organization: String,
    pub body: Vec<u8>,
}

impl Builder {
    pub open spec fn spec_path(&self) -> Seq<char> {
        "userentitlements"@
    }

    pub open spec fn spec_params(&self) -> Seq<(Seq<char>, Option<Seq<char>>)> {
        seq![]
    }

    /// The request, given what the credential answered.
    pub fn request(&self, authorization: Option<String>) -> (r: HttpRequest)
        ensures
            is_request(
                r,
                Operation::AddUserEntitlement,
                self.client.endpoint@,
                self.organization@,
                self.spec_path(),
                self.spec_params(),
                opt_view(authorization),
                self.body@,
            ),
            distinct_names(self.spec_params()),
            no_version_param(self.spec_params()),
    {
        proof {
            reveal_strlit("userentitlements");
        }
        let path = "userentitlements".to_owned();
        let mut params: Vec<QueryParam> = Vec::new();
        assert(params_view(params@) =~= self.spec_params());
        let body = self.body.clone();
        assert(body@ =~= self.body@);
        build_request(
            Operation::AddUserEntitlement,
            self.client.endpoint.as_str(),
            self.organization.as_str(),
            path.as_str(),
            &params,
            authorization,
            body,
        )
    }

    /// The operation that this builder describes.
    pub fn operation(&self) -> (r: Operation)
        ensures
            r == Operation::AddUserEntitlement,
    {
        Operation::AddUserEntitlement
    }

    /// What the response with `status` and `body` means.
    pub fn response(&self, status: u16, body: &[u8]) -> (r: Result<Payload, ApiError>)
        ensures
            response_outcome(Operation::AddUserEntitlement, status, body@, r),
    {
        decode_response(Operation::AddUserEntitlement, status, body)
    }
}

} // verus!
