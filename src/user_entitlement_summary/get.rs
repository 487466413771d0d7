//! Get the summary of licenses, extensions, projects, groups and their assignments.
use vstd::prelude::*;
use crate::http::{HttpRequest, QueryParam, opt_view, params_view, text_param};
use crate::operation::{
    api_version_name, build_request, distinct_names, is_request, no_version_param, Operation,
};
use crate::response::{decode_response, response_outcome, ApiError, Payload};

verus! {

/// The parameters of one request, collected before it is built.
#[derive(Clone, Debug)]
pub struct Builder {
    pub client: crate::client::Client,
    pub organization: String,
    pub select: Option<String>,
}

impl Builder {
    pub open spec fn spec_path(&self) -> Seq<char> {
        "userentitlementsummary"@
    }

    pub open spec fn spec_params(&self) -> Seq<(Seq<char>, Option<Seq<char>>)> {
        seq![("select"@, opt_view(self.select))]
    }

    /// Comma-separated list of properties to select.
    pub fn select(self, select: String) -> (r: Self)
        ensures
            r == (Builder { select: Some(select), ..self }),
    {
        Builder { select: Some(select), ..self }
    }

    /// The request, given what the credential answered.
    pub fn request(&self, authorization: Option<String>) -> (r: HttpRequest)
        ensures
            is_request(
                r,
                Operation::GetUserEntitlementSummary,
                self.client.endpoint@,
                self.organization@,
                self.spec_path(),
                self.spec_params(),
                opt_view(authorization),
                seq![],
            ),
            distinct_names(self.spec_params()),
            no_version_param(self.spec_params()),
    {
        proof {
            reveal_strlit("userentitlementsummary");
            reveal_strlit("api-version");
            reveal_strlit("select");
            assert(self.spec_params()[0].0.len() != api_version_name().len());
        }
        let path = "userentitlementsummary".to_owned();
        let mut params: Vec<QueryParam> = Vec::new();
        params.push(text_param("select", &self.select));
        assert(params_view(params@) =~= self.spec_params());
        let body: Vec<u8> = Vec::new();
        build_request(
            Operation::GetUserEntitlementSummary,
            self.client.endpoint.as_str(),
            self.organization.as_str(),
            path.as_str(),
            &params,
            authorization,
            body,
        )
    }

    /// The operation that this builder describes.
    pub fn operation(&self) -> (r: Operation)
        ensures
            r == Operation::GetUserEntitlementSummary,
    {
        Operation::GetUserEntitlementSummary
    }

    /// What the response with `status` and `body` means.
    pub fn response(&self, status: u16, body: &[u8]) -> (r: Result<Payload, ApiError>)
        ensures
            response_outcome(Operation::GetUserEntitlementSummary, status, body@, r),
    {
        decode_response(Operation::GetUserEntitlementSummary, status, body)
    }
}

} // verus!
