//! The client context shared by every operation: the service endpoint and
//! the scopes for which a credential is asked.
use vstd::prelude::*;
use vstd::string::StringExecFns;
use crate::group_entitlements;
use crate::members;
use crate::user_entitlement_summary;
use crate::user_entitlements;

verus! {

/// The endpoint used when none is set.
pub const DEFAULT_ENDPOINT: &'static str = "https://vsaex.dev.azure.com";

pub open spec fn default_endpoint() -> Seq<char> {
    "https://vsaex.dev.azure.com"@
}

pub open spec fn strings_view(v: Seq<String>) -> Seq<Seq<char>> {
    v.map_values(|s: String| s@)
}

/// The endpoint and scopes that every request of a client uses.
#[derive(Debug)]
pub struct Client {
    pub endpoint: String,
    pub scopes: Vec<String>,
}

impl View for Client {
    type V = (Seq<char>, Seq<Seq<char>>);

    open spec fn view(&self) -> (Seq<char>, Seq<Seq<char>>) {
        (self.endpoint@, strings_view(self.scopes@))
    }
}

impl Clone for Client {
    fn clone(&self) -> (r: Self)
        ensures
            r@ == self@,
    {
        let scopes = self.scopes.clone();
        assert forall|i: int| 0 <= i < scopes.len() implies scopes@[i] == self.scopes@[i] by {
            assert(cloned(self.scopes[i], scopes[i]));
        }
        assert(strings_view(scopes@) =~= strings_view(self.scopes@));
        Client { endpoint: self.endpoint.clone(), scopes }
    }
}

/// Collects the settings of a client; what is not set takes its default.
#[derive(Clone, Debug)]
pub struct ClientBuilder {
    pub endpoint: Option<String>,
    pub scopes: Option<Vec<String>>,
}

impl ClientBuilder {
    /// A builder with nothing set.
    pub fn new() -> (r: Self)
        ensures
            r.endpoint is None,
            r.scopes is None,
    {
        ClientBuilder { endpoint: None, scopes: None }
    }

    /// Sets the endpoint.
    pub fn endpoint(self, endpoint: String) -> (r: Self)
        ensures
            r.endpoint == Some(endpoint),
            r.scopes == self.scopes,
    {
        ClientBuilder { endpoint: Some(endpoint), ..self }
    }

    /// Sets the scopes.
    pub fn scopes(self, scopes: &[&str]) -> (r: Self)
        ensures
            r.endpoint == self.endpoint,
            r.scopes is Some,
            strings_view(r.scopes->Some_0@) == scopes@.map_values(|s: &str| s@),
    {
        let mut v: Vec<String> = Vec::new();
        let mut i: usize = 0;
        while i < scopes.len()
            invariant
                i <= scopes.len(),
                strings_view(v@) == scopes@.take(i as int).map_values(|s: &str| s@),
            decreases scopes.len() - i,
        {
            let s = scopes[i].to_owned();
            v.push(s);
            assert(strings_view(v@).last() == scopes@[i as int]@);
            assert(scopes@.take(i + 1).map_values(|s: &str| s@) =~= scopes@.take(i as int).map_values(
                |s: &str| s@,
            ).push(scopes@[i as int]@));
            assert(strings_view(v@) =~= scopes@.take(i + 1).map_values(|s: &str| s@));
            i = i + 1;
        }
        assert(scopes@.take(scopes.len() as int) =~= scopes@);
        ClientBuilder { endpoint: self.endpoint, scopes: Some(v) }
    }

    /// The client: the endpoint set or the default one, and the scopes set or
    /// the single scope of the endpoint followed by `/`.
    pub fn build(self) -> (r: Client)
        ensures
            r.endpoint@ == match self.endpoint {
                Some(e) => e@,
                None => default_endpoint(),
            },
            self.scopes is Some ==> r.scopes == self.scopes->Some_0,
            self.scopes is None ==> strings_view(r.scopes@) == seq![r.endpoint@ + seq!['/']],
    {
        let endpoint = match self.endpoint {
            Some(e) => e,
            None => DEFAULT_ENDPOINT.to_owned(),
        };
        let scopes = match self.scopes {
            Some(s) => s,
            None => {
                proof {
                    reveal_strlit("/");
                }
                let scope = endpoint.clone().concat("/");
                let mut v: Vec<String> = Vec::new();
                v.push(scope);
                assert(strings_view(v@)[0] == endpoint@ + seq!['/']);
                assert(strings_view(v@) =~= seq![endpoint@ + seq!['/']]);
                v
            },
        };
        Client { endpoint, scopes }
    }
}

impl Client {
    /// A builder for a client.
    pub fn builder() -> (r: ClientBuilder)
        ensures
            r.endpoint is None,
            r.scopes is None,
    {
        ClientBuilder::new()
    }

    /// A client for `endpoint` with the given scopes.
    pub fn new(endpoint: String, scopes: Vec<String>) -> (r: Client)
        ensures
            r.endpoint == endpoint,
            r.scopes == scopes,
    {
        Client { endpoint, scopes }
    }

    pub fn group_entitlements_client(&self) -> (r: group_entitlements::Client)
        ensures
            r.0@ == self@,
    {
        group_entitlements::Client(self.clone())
    }

    pub fn members_client(&self) -> (r: members::Client)
        ensures
            r.0@ == self@,
    {
        members::Client(self.clone())
    }

    pub fn user_entitlement_summary_client(&self) -> (r: user_entitlement_summary::Client)
        ensures
            r.0@ == self@,
    {
        user_entitlement_summary::Client(self.clone())
    }

    pub fn user_entitlements_client(&self) -> (r: user_entitlements::Client)
        ensures
            r.0@ == self@,
    {
        user_entitlements::Client(self.clone())
    }
}

} // verus!
