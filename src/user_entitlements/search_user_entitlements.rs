//! Get a paged set of user entitlements matching the filter and sort criteria.
use vstd::prelude::*;
use crate::http::{HttpRequest, QueryParam, opt_view, params_view, text_param};
use crate::operation::{
    api_version_name, build_request, distinct_names, is_request, no_version_param, Operation,
};
use crate::response::{decode_response, response_outcome, ApiError, Payload};

verus! {

/// The parameters of one request, collected before it is built.
#[derive(Clone, Debug)]
pub struct Builder {
    pub client: crate::client::Client,
    pub organization: String,
    pub continuation_token: Option<String>,
    pub select: Option<String>,
    pub filter: Option<String>,
    pub order_by: Option<String>,
}

impl Builder {
    pub open spec fn spec_path(&self) -> Seq<char> {
        "userentitlements"@
    }

    pub open spec fn spec_params(&self) -> Seq<(Seq<char>, Option<Seq<char>>)> {
        seq![("continuationToken"@, opt_view(self.continuation_token)), ("select"@, opt_view(self.select)), ("$filter"@, opt_view(self.filter)), ("$orderBy"@, opt_view(self.order_by))]
    }

    /// The continuation token of the previous page.
    pub fn continuation_token(self, continuation_token: String) -> (r: Self)
        ensures
            r == (Builder { continuation_token: Some(continuation_token), ..self }),
    {
        Builder { continuation_token: Some(continuation_token), ..self }
    }

    /// Comma-separated list of properties to select.
    pub fn select(self, select: String) -> (r: Self)
        ensures
            r == (Builder { select: Some(select), ..self }),
    {
        Builder { select: Some(select), ..self }
    }

    /// The filter expression.
    pub fn filter(self, filter: String) -> (r: Self)
        ensures
            r == (Builder { filter: Some(filter), ..self }),
    {
        Builder { filter: Some(filter), ..self }
    }

    /// The property and direction to sort by.
    pub fn order_by(self, order_by: String) -> (r: Self)
        ensures
            r == (Builder { order_by: Some(order_by), ..self }),
    {
        Builder { order_by: Some(order_by), ..self }
    }

    /// The request, given what the credential answered.
    pub fn request(&self, authorization: Option<String>) -> (r: HttpRequest)
        ensures
            is_request(
                r,
                Operation::SearchUserEntitlements,
                self.client.endpoint@,
                self.organization@,
                self.spec_path(),
                self.spec_params(),
                opt_view(authorization),
                seq![],
            ),
            distinct_names(self.spec_params()),
            no_version_param(self.spec_params()),
    {
        proof {
            reveal_strlit("userentitlements");
            reveal_strlit("api-version");
            reveal_strlit("continuationToken");
            reveal_strlit("select");
            reveal_strlit("$filter");
            reveal_strlit("$orderBy");
            assert(self.spec_params()[0].0.len() != api_version_name().len());
            assert(self.spec_params()[0].0.len() != self.spec_params()[1].0.len());
            assert(self.spec_params()[0].0.len() != self.spec_params()[2].0.len());
            assert(self.spec_params()[0].0.len() != self.spec_params()[3].0.len());
            assert(self.spec_params()[1].0.len() != api_version_name().len());
            assert(self.spec_params()[1].0.len() != self.spec_params()[2].0.len());
            assert(self.spec_params()[1].0.len() != self.spec_params()[3].0.len());
            assert(self.spec_params()[2].0.len() != api_version_name().len());
            assert(self.spec_params()[2].0.len() != self.spec_params()[3].0.len());
            assert(self.spec_params()[3].0.len() != api_version_name().len());
        }
        let path = "userentitlements".to_owned();
        let mut params: Vec<QueryParam> = Vec::new();
        params.push(text_param("continuationToken", &self.continuation_token));
        params.push(text_param("select", &self.select));
        params.push(text_param("$filter", &self.filter));
        params.push(text_param("$orderBy", &self.order_by));
        assert(params_view(params@) =~= self.spec_params());
        let body: Vec<u8> = Vec::new();
        build_request(
            Operation::SearchUserEntitlements,
            self.client.endpoint.as_str(),
            self.organization.as_str(),
            path.as_str(),
            &params,
            authorization,
            body,
        )
    }

    /// The operation that this builder describes.
    pub fn operation(&self) -> (r: Operation)
        ensures
            r == Operation::SearchUserEntitlements,
    {
        Operation::SearchUserEntitlements
    }

    /// What the response with `status` and `body` means.
    pub fn response(&self, status: u16, body: &[u8]) -> (r: Result<Payload, ApiError>)
        ensures
            response_outcome(Operation::SearchUserEntitlements, status, body@, r),
    {
        decode_response(Operation::SearchUserEntitlements, status, body)
    }
}

} // verus!
