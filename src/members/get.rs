//! Get direct members of a group.
use vstd::prelude::*;
use vstd::string::StringExecFns;
use crate::http::{
    HttpRequest, QueryParam, int_opt_text, int_param, opt_view, params_view, text_param,
};
use crate::operation::{
    api_version_name, build_request, distinct_names, is_request, no_version_param, Operation,
};
use crate::response::{decode_response, response_outcome, ApiError, Payload};

verus! {

/// The parameters of one request, collected before it is built.
#[derive(Clone, Debug)]
pub struct Builder {
    pub client: crate::client::Client,
    pub organization: String,
    pub group_id: String,
    pub max_results: Option<i32>,
    pub paging_token: Option<String>,
}

impl Builder {
    pub open spec fn spec_path(&self) -> Seq<char> {
        "GroupEntitlements/"@ + self.group_id@ + "/members"@
    }

    pub open spec fn spec_params(&self) -> Seq<(Seq<char>, Option<Seq<char>>)> {
        seq![("maxResults"@, int_opt_text(self.max_results)), ("pagingToken"@, opt_view(self.paging_token))]
    }

    /// The maximum number of results to retrieve.
    pub fn max_results(self, max_results: i32) -> (r: Self)
        ensures
            r == (Builder { max_results: Some(max_results), ..self }),
    {
        Builder { max_results: Some(max_results), ..self }
    }

    /// The paging token of the previous page; without one the list starts from its beginning.
    pub fn paging_token(self, paging_token: String) -> (r: Self)
        ensures
            r == (Builder { paging_token: Some(paging_token), ..self }),
    {
        Builder { paging_token: Some(paging_token), ..self }
    }

    /// The request, given what the credential answered.
    pub fn request(&self, authorization: Option<String>) -> (r: HttpRequest)
        ensures
            is_request(
                r,
                Operation::GetGroupMembers,
                self.client.endpoint@,
                self.organization@,
                self.spec_path(),
                self.spec_params(),
                opt_view(authorization),
                seq![],
            ),
            distinct_names(self.spec_params()),
            no_version_param(self.spec_params()),
    {
        proof {
            reveal_strlit("GroupEntitlements/");
            reveal_strlit("/members");
            reveal_strlit("api-version");
            reveal_strlit("maxResults");
            reveal_strlit("pagingToken");
            assert(self.spec_params()[0].0.len() != api_version_name().len());
            assert(self.spec_params()[0].0.len() != self.spec_params()[1].0.len());
            assert(self.spec_params()[1].0[0] != api_version_name()[0]);
        }
        let mut path = "GroupEntitlements/".to_owned();
        path.append(self.group_id.as_str());
        path.append("/members");
        let mut params: Vec<QueryParam> = Vec::new();
        params.push(int_param("maxResults", self.max_results));
        params.push(text_param("pagingToken", &self.paging_token));
        assert(params_view(params@) =~= self.spec_params());
        let body: Vec<u8> = Vec::new();
        build_request(
            Operation::GetGroupMembers,
            self.client.endpoint.as_str(),
            self.organization.as_str(),
            path.as_str(),
            &params,
            authorization,
            body,
        )
    }

    /// The operation that this builder describes.
    pub fn operation(&self) -> (r: Operation)
        ensures
            r == Operation::GetGroupMembers,
    {
        Operation::GetGroupMembers
    }

    /// What the response with `status` and `body` means.
    pub fn response(&self, status: u16, body: &[u8]) -> (r: Result<Payload, ApiError>)
        ensures
            response_outcome(Operation::GetGroupMembers, status, body@, r),
    {
        decode_response(Operation::GetGroupMembers, status, body)
    }
}

} // verus!
