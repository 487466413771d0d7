//! Get a group entitlement.
use vstd::prelude::*;
use vstd::string::StringExecFns;
use crate::http::{HttpRequest, QueryParam, opt_view, params_view};
use crate::operation::{build_request, distinct_names, is_request, no_version_param, Operation};
use crate::response::{decode_response, response_outcome, ApiError, Payload};

verus! {

/// The parameters of one request, collected before it is built.
#[derive(Clone, Debug)]
pub struct Builder {
    pub client: crate::client::Client,
    pub organization: String,
    pub group_id: String,
}

impl Builder {
    pub open spec fn spec_path(&self) -> Seq<char> {
        "groupentitlements/"@ + self.group_id@
    }

    pub open spec fn spec_params(&self) -> Seq<(Seq<char>, Option<Seq<char>>)> {
        seq![]
    }

    /// The request, given what the credential answered.
    pub fn request(&self, authorization: Option<String>) -> (r: HttpRequest)
        ensures
            is_request(
                r,
                Operation::GetGroupEntitlement,
                self.client.endpoint@,
                self.organization@,
                self.spec_path(),
                self.spec_params(),
                opt_view(authorization),
                seq![],
            ),
            distinct_names(self.spec_params()),
            no_version_param(self.spec_params()),
    {
        proof {
            reveal_strlit("groupentitlements/");
        }
        let mut path = "groupentitlements/".to_owned();
        path.append(self.group_id.as_str());
        let mut params: Vec<QueryParam> = Vec::new();
        assert(params_view(params@) =~= self.spec_params());
        let body: Vec<u8> = Vec::new();
        build_request(
            Operation::GetGroupEntitlement,
            self.client.endpoint.as_str(),
            self.organization.as_str(),
            path.as_str(),
            &params,
            authorization,
            body,
        )
    }

    /// The operation that this builder describes.
    pub fn operation(&self) -> (r: Operation)
        ensures
            r == Operation::GetGroupEntitlement,
    {
        Operation::GetGroupEntitlement
    }

    /// What the response with `status` and `body` means.
    pub fn response(&self, status: u16, body: &[u8]) -> (r: Result<Payload, ApiError>)
        ensures
            response_outcome(Operation::GetGroupEntitlement, status, body@, r),
    {
        decode_response(Operation::GetGroupEntitlement, status, body)
    }
}

} // verus!
