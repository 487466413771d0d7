//! Delete a group entitlement.
use vstd::prelude::*;
use vstd::string::StringExecFns;
use crate::http::{
    HttpRequest, QueryParam, bool_opt_text, bool_param, opt_view, params_view, text_param,
};
use crate::operation::{
    api_version_name, build_request, distinct_names, is_request, no_version_param, Operation,
};
use crate::response::{decode_response, response_outcome, ApiError, Payload};

verus! {

/// The parameters of one request, collected before it is built.
#[derive(Clone, Debug)]
pub struct Builder {
    pub client: crate::client::Client,
    pub organization: String,
    pub group_id: String,
    pub rule_option: Option<String>,
    pub remove_group_membership: Option<bool>,
}

impl Builder {
    pub open spec fn spec_path(&self) -> Seq<char> {
        "groupentitlements/"@ + self.group_id@
    }

    pub open spec fn spec_params(&self) -> Seq<(Seq<char>, Option<Seq<char>>)> {
        seq![("ruleOption"@, opt_view(self.rule_option)), ("removeGroupMembership"@, bool_opt_text(self.remove_group_membership))]
    }

    /// Whether the rules of the group entitlement are applied to its members (`ApplyGroupRule`, the default) or only tested (`TestApplyGroupRule`).
    pub fn rule_option(self, rule_option: String) -> (r: Self)
        ensures
            r == (Builder { rule_option: Some(rule_option), ..self }),
    {
        Builder { rule_option: Some(rule_option), ..self }
    }

    /// Whether the group is also removed from all project-level groups.
    pub fn remove_group_membership(self, remove_group_membership: bool) -> (r: Self)
        ensures
            r == (Builder { remove_group_membership: Some(remove_group_membership), ..self }),
    {
        Builder { remove_group_membership: Some(remove_group_membership), ..self }
    }

    /// The request, given what the credential answered.
    pub fn request(&self, authorization: Option<String>) -> (r: HttpRequest)
        ensures
            is_request(
                r,
                Operation::DeleteGroupEntitlement,
                self.client.endpoint@,
                self.organization@,
                self.spec_path(),
                self.spec_params(),
                opt_view(authorization),
                seq![],
            ),
            distinct_names(self.spec_params()),
            no_version_param(self.spec_params()),
    {
        proof {
            reveal_strlit("groupentitlements/");
            reveal_strlit("api-version");
            reveal_strlit("ruleOption");
            reveal_strlit("removeGroupMembership");
            assert(self.spec_params()[0].0.len() != api_version_name().len());
            assert(self.spec_params()[0].0.len() != self.spec_params()[1].0.len());
            assert(self.spec_params()[1].0.len() != api_version_name().len());
        }
        let mut path = "groupentitlements/".to_owned();
        path.append(self.group_id.as_str());
        let mut params: Vec<QueryParam> = Vec::new();
        params.push(text_param("ruleOption", &self.rule_option));
        params.push(bool_param("removeGroupMembership", self.remove_group_membership));
        assert(params_view(params@) =~= self.spec_params());
        let body: Vec<u8> = Vec::new();
        build_request(
            Operation::DeleteGroupEntitlement,
            self.client.endpoint.as_str(),
            self.organization.as_str(),
            path.as_str(),
            &params,
            authorization,
            body,
        )
    }

    /// The operation that this builder describes.
    pub fn operation(&self) -> (r: Operation)
        ensures
            r == Operation::DeleteGroupEntitlement,
    {
        Operation::DeleteGroupEntitlement
    }

    /// What the response with `status` and `body` means.
    pub fn response(&self, status: u16, body: &[u8]) -> (r: Result<Payload, ApiError>)
        ensures
            response_outcome(Operation::DeleteGroupEntitlement, status, body@, r),
    {
        decode_response(Operation::DeleteGroupEntitlement, status, body)
    }
}

} // verus!
