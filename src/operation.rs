//! The table of operations and the one function that turns an operation and
//! its parameters into a request.
use vstd::prelude::*;
use vstd::string::StringExecFns;
use crate::http::{
    append_query, headers_view, opt_view, pairs_view, params_view, query_string, Header, HttpRequest,
    Method, QueryPair, QueryParam,
};

verus! {

/// The version of the REST API that every request names.
pub open spec fn api_version() -> Seq<char> {
    "7.1-preview"@
}

/// The name of the query parameter that carries the API version.
pub open spec fn api_version_name() -> Seq<char> {
    "api-version"@
}

pub open spec fn authorization_name() -> Seq<char> {
    "authorization"@
}

pub open spec fn content_type_name() -> Seq<char> {
    "content-type"@
}

/// How an operation sends its body.
#[derive(Clone, Copy, Debug, PartialEq, Eq, Structural)]
pub enum BodyKind {
    /// An explicitly empty body, with no content type.
    Empty,
    /// A JSON document.
    Json,
    /// A JSON Patch document.
    JsonPatch,
}

/// Every endpoint of the service.
#[derive(Clone, Copy, Debug, PartialEq, Eq, Structural)]
pub enum Operation {
    ListGroupEntitlements,
    AddGroupEntitlement,
    GetGroupEntitlement,
    UpdateGroupEntitlement,
    DeleteGroupEntitlement,
    GetGroupMembers,
    AddGroupMember,
    RemoveGroupMember,
    SearchUserEntitlements,
    AddUserEntitlement,
    UpdateUserEntitlements,
    GetUserEntitlement,
    UpdateUserEntitlement,
    DeleteUserEntitlement,
    GetUserEntitlementSummary,
}

impl Operation {
    pub open spec fn spec_method(self) -> Method {
        match self {
            Operation::AddGroupEntitlement | Operation::AddUserEntitlement => Method::Post,
            Operation::UpdateGroupEntitlement
            | Operation::UpdateUserEntitlements
            | Operation::UpdateUserEntitlement => Method::Patch,
            Operation::DeleteGroupEntitlement
            | Operation::RemoveGroupMember
            | Operation::DeleteUserEntitlement => Method::Delete,
            Operation::AddGroupMember => Method::Put,
            _ => Method::Get,
        }
    }

    /// The HTTP method of the operation.
    pub fn method(&self) -> (r: Method)
        ensures
            r == self.spec_method(),
    {
        match self {
            Operation::AddGroupEntitlement | Operation::AddUserEntitlement => Method::Post,
            Operation::UpdateGroupEntitlement
            | Operation::UpdateUserEntitlements
            | Operation::UpdateUserEntitlement => Method::Patch,
            Operation::DeleteGroupEntitlement
            | Operation::RemoveGroupMember
            | Operation::DeleteUserEntitlement => Method::Delete,
            Operation::AddGroupMember => Method::Put,
            _ => Method::Get,
        }
    }

    pub open spec fn spec_success_status(self) -> u16 {
        match self {
            Operation::AddGroupEntitlement => 201,
            _ => 200,
        }
    }

    /// The one status that the operation declares as success: 201 Created
    /// when a group entitlement is added, 200 OK otherwise.
    pub fn success_status(&self) -> (r: u16)
        ensures
            r == self.spec_success_status(),
    {
        match self {
            Operation::AddGroupEntitlement => 201,
            _ => 200,
        }
    }

    pub open spec fn spec_body_kind(self) -> BodyKind {
        match self {
            Operation::AddGroupEntitlement | Operation::AddUserEntitlement => BodyKind::Json,
            Operation::UpdateGroupEntitlement
            | Operation::UpdateUserEntitlements
            | Operation::UpdateUserEntitlement => BodyKind::JsonPatch,
            _ => BodyKind::Empty,
        }
    }

    /// How the operation sends its body.
    pub fn body_kind(&self) -> (r: BodyKind)
        ensures
            r == self.spec_body_kind(),
    {
        match self {
            Operation::AddGroupEntitlement | Operation::AddUserEntitlement => BodyKind::Json,
            Operation::UpdateGroupEntitlement
            | Operation::UpdateUserEntitlements
            | Operation::UpdateUserEntitlement => BodyKind::JsonPatch,
            _ => BodyKind::Empty,
        }
    }

    pub open spec fn spec_returns_value(self) -> bool {
        match self {
            Operation::AddGroupMember
            | Operation::RemoveGroupMember
            | Operation::DeleteUserEntitlement => false,
            _ => true,
        }
    }

    /// Whether a successful response carries a JSON body to decode.
    pub fn returns_value(&self) -> (r: bool)
        ensures
            r == self.spec_returns_value(),
    {
        match self {
            Operation::AddGroupMember
            | Operation::RemoveGroupMember
            | Operation::DeleteUserEntitlement => false,
            _ => true,
        }
    }
}

/// The content type of a body kind, if it has one.
pub open spec fn content_type(k: BodyKind) -> Option<Seq<char>> {
    match k {
        BodyKind::Empty => None,
        BodyKind::Json => Some("application/json"@),
        BodyKind::JsonPatch => Some("application/json-patch+json"@),
    }
}

/// The URL of a resource, before its query.
pub open spec fn resource_url(endpoint: Seq<char>, organization: Seq<char>, path: Seq<char>) -> Seq<
    char,
> {
    endpoint + seq!['/'] + organization + "/_apis/"@ + path
}

/// The pairs that the given optional parameters contribute, in their order:
/// one for each parameter that has a value.
pub open spec fn present_pairs(ps: Seq<(Seq<char>, Option<Seq<char>>)>) -> Seq<
    (Seq<char>, Seq<char>),
>
    decreases ps.len(),
{
    if ps.len() == 0 {
        seq![]
    } else {
        let rest = present_pairs(ps.drop_last());
        match ps.last().1 {
            Some(v) => rest.push((ps.last().0, v)),
            None => rest,
        }
    }
}

/// The query of a request: the API version first, then the optional
/// parameters that have a value.
pub open spec fn request_query(ps: Seq<(Seq<char>, Option<Seq<char>>)>) -> Seq<
    (Seq<char>, Seq<char>),
> {
    seq![(api_version_name(), api_version())] + present_pairs(ps)
}

/// The headers of a request: the authorization value when the credential
/// gave one, then the content type when the operation sends a body.
pub open spec fn request_headers(op: Operation, authorization: Option<Seq<char>>) -> Seq<
    (Seq<char>, Seq<char>),
> {
    let auth: Seq<(Seq<char>, Seq<char>)> = match authorization {
        Some(v) => seq![(authorization_name(), v)],
        None => seq![],
    };
    let ct: Seq<(Seq<char>, Seq<char>)> = match content_type(op.spec_body_kind()) {
        Some(t) => seq![(content_type_name(), t)],
        None => seq![],
    };
    auth + ct
}

/// `r` is the request for `op` on the resource at `path`, with the optional
/// parameters `params`, the credential's answer `authorization`, and `body`.
pub open spec fn is_request(
    r: HttpRequest,
    op: Operation,
    endpoint: Seq<char>,
    organization: Seq<char>,
    path: Seq<char>,
    params: Seq<(Seq<char>, Option<Seq<char>>)>,
    authorization: Option<Seq<char>>,
    body: Seq<u8>,
) -> bool {
    &&& r.method == op.spec_method()
    &&& pairs_view(r.query@) == request_query(params)
    &&& r.url@ == resource_url(endpoint, organization, path) + seq!['?'] + query_string(
        request_query(params),
    )
    &&& headers_view(r.headers@) == request_headers(op, authorization)
    &&& r.body@ == (if op.spec_body_kind() == BodyKind::Empty {
        seq![]
    } else {
        body
    })
}

fn header(name: &str, value: String) -> (r: Header)
    ensures
        r@ == (name@, value@),
{
    Header { name: name.to_owned(), value }
}

/// Builds the request for `op`. `path` is the part of the URL after
/// `_apis/`, with its identifiers in place; `params` are the operation's
/// optional query parameters; `authorization` is what the credential gave;
/// `body` is the encoded body, sent only by operations that declare one.
pub fn build_request(
    op: Operation,
    endpoint: &str,
    organization: &str,
    path: &str,
    params: &Vec<QueryParam>,
    authorization: Option<String>,
    body: Vec<u8>,
) -> (r: HttpRequest)
    ensures
        is_request(
            r,
            op,
            endpoint@,
            organization@,
            path@,
            params_view(params@),
            opt_view(authorization),
            body@,
        ),
{
    proof {
        reveal_strlit("/");
        reveal_strlit("/_apis/");
    }
    let mut url = endpoint.to_owned();
    url.append("/");
    url.append(organization);
    url.append("/_apis/");
    url.append(path);
    assert(url@ =~= resource_url(endpoint@, organization@, path@));

    let mut query: Vec<QueryPair> = Vec::new();
    query.push(QueryPair { name: "api-version".to_owned(), value: "7.1-preview".to_owned() });
    let ghost ps = params_view(params@);
    assert(pairs_view(query@) =~= request_query(ps.take(0)));
    let mut i: usize = 0;
    while i < params.len()
        invariant
            i <= params.len(),
            ps == params_view(params@),
            pairs_view(query@) == request_query(ps.take(i as int)),
        decreases params.len() - i,
    {
        let ghost prev = query@;
        let ghost next = ps.take(i + 1);
        proof {
            assert(next.drop_last() =~= ps.take(i as int));
            assert(next.last() == params@[i as int]@);
        }
        match &params[i].value {
            Some(v) => {
                let pair = QueryPair { name: params[i].name.clone(), value: v.clone() };
                assert(pair@ == (next.last().0, next.last().1->Some_0));
                query.push(pair);
                assert(pairs_view(query@) =~= pairs_view(prev).push(pair@));
                assert(present_pairs(next) == present_pairs(ps.take(i as int)).push(pair@));
                assert(pairs_view(query@) =~= request_query(next));
            },
            None => {
                assert(present_pairs(next) == present_pairs(ps.take(i as int)));
            },
        }
        i = i + 1;
    }
    assert(ps.take(params.len() as int) =~= ps);
    append_query(&mut url, &query);

    let mut headers: Vec<Header> = Vec::new();
    match authorization {
        Some(v) => {
            headers.push(header("authorization", v));
        },
        None => {},
    }
    let kind = op.body_kind();
    match kind {
        BodyKind::Json => {
            headers.push(header("content-type", "application/json".to_owned()));
        },
        BodyKind::JsonPatch => {
            headers.push(header("content-type", "application/json-patch+json".to_owned()));
        },
        BodyKind::Empty => {},
    }
    assert(headers_view(headers@) =~= request_headers(op, opt_view(authorization)));
    let body = match kind {
        BodyKind::Empty => Vec::new(),
        _ => body,
    };
    HttpRequest { method: op.method(), url, query, headers, body }
}

/// The names of the optional parameters are pairwise distinct.
pub open spec fn distinct_names(ps: Seq<(Seq<char>, Option<Seq<char>>)>) -> bool {
    forall|a: int, b: int| 0 <= a < b < ps.len() ==> ps[a].0 != ps[b].0
}

/// No optional parameter is named like the API version parameter.
pub open spec fn no_version_param(ps: Seq<(Seq<char>, Option<Seq<char>>)>) -> bool {
    forall|j: int| 0 <= j < ps.len() ==> ps[j].0 != api_version_name()
}

/// A name that no parameter has is in no pair that the parameters give.
proof fn lemma_name_absent(ps: Seq<(Seq<char>, Option<Seq<char>>)>, n: Seq<char>)
    requires
        forall|j: int| 0 <= j < ps.len() ==> ps[j].0 != n,
    ensures
        forall|k: int| 0 <= k < present_pairs(ps).len() ==> present_pairs(ps)[k].0 != n,
    decreases ps.len(),
{
    if ps.len() > 0 {
        let init = ps.drop_last();
        assert forall|j: int| 0 <= j < init.len() implies init[j].0 != n by {
            assert(init[j] == ps[j]);
        }
        lemma_name_absent(init, n);
        assert(ps.last().0 != n);
        let rest = present_pairs(init);
        assert forall|k: int| 0 <= k < present_pairs(ps).len() implies present_pairs(ps)[k].0
            != n by {
            if k < rest.len() {
                assert(present_pairs(ps)[k] == rest[k]);
            }
        }
    }
}

/// With distinct names, parameter `i` gives no pair when it has no value and
/// exactly one pair, with its value, when it has one.
proof fn lemma_present_once(ps: Seq<(Seq<char>, Option<Seq<char>>)>, i: int)
    requires
        distinct_names(ps),
        0 <= i < ps.len(),
    ensures
        ps[i].1 is None ==> forall|k: int|
            0 <= k < present_pairs(ps).len() ==> present_pairs(ps)[k].0 != ps[i].0,
        ps[i].1 is Some ==> exists|k: int|
            0 <= k < present_pairs(ps).len() && present_pairs(ps)[k] == (ps[i].0, ps[i].1->Some_0)
                && forall|m: int|
                0 <= m < present_pairs(ps).len() && m != k ==> present_pairs(ps)[m].0 != ps[i].0,
    decreases ps.len(),
{
    let init = ps.drop_last();
    let rest = present_pairs(init);
    if i == ps.len() - 1 {
        lemma_name_absent(init, ps[i].0);
        if ps[i].1 is Some {
            let k = rest.len() as int;
            assert(present_pairs(ps)[k] == (ps[i].0, ps[i].1->Some_0));
        }
    } else {
        assert(distinct_names(init));
        lemma_present_once(init, i);
        assert(ps.last().0 != ps[i].0);
        if ps[i].1 is Some {
            let k = choose|k: int|
                0 <= k < rest.len() && rest[k] == (init[i].0, init[i].1->Some_0) && forall|m: int|
                    0 <= m < rest.len() && m != k ==> rest[m].0 != init[i].0;
            assert(present_pairs(ps)[k] == (ps[i].0, ps[i].1->Some_0));
        }
    }
}

/// An optional query parameter that has no value never appears in the query
/// of the request; one that has a value appears exactly once, with that
/// value. The query is in the URL with each name and value form-encoded.
pub proof fn lemma_optional_param_in_query(
    r: HttpRequest,
    op: Operation,
    endpoint: Seq<char>,
    organization: Seq<char>,
    path: Seq<char>,
    params: Seq<(Seq<char>, Option<Seq<char>>)>,
    authorization: Option<Seq<char>>,
    body: Seq<u8>,
    i: int,
)
    requires
        is_request(r, op, endpoint, organization, path, params, authorization, body),
        distinct_names(params),
        no_version_param(params),
        0 <= i < params.len(),
    ensures
        params[i].1 is None ==> forall|k: int|
            0 <= k < r.query.len() ==> r.query@[k]@.0 != params[i].0,
        params[i].1 is Some ==> exists|k: int|
            0 <= k < r.query.len() && r.query@[k]@ == (params[i].0, params[i].1->Some_0) && forall|
                m: int,
            | 0 <= m < r.query.len() && m != k ==> r.query@[m]@.0 != params[i].0,
        r.url@ == resource_url(endpoint, organization, path) + seq!['?'] + query_string(
            pairs_view(r.query@),
        ),
{
    let q = pairs_view(r.query@);
    let pp = present_pairs(params);
    lemma_present_once(params, i);
    assert(q.len() == r.query.len());
    assert forall|k: int| 0 <= k < q.len() implies q[k] == r.query@[k]@ by {}
    assert(q[0].0 != params[i].0);
    assert forall|k: int| 1 <= k < q.len() implies q[k] == pp[k - 1] by {}
    if params[i].1 is Some {
        let k = choose|k: int|
            0 <= k < pp.len() && pp[k] == (params[i].0, params[i].1->Some_0) && forall|m: int|
                0 <= m < pp.len() && m != k ==> pp[m].0 != params[i].0;
        assert(q[k + 1] == pp[k]);
        assert(q[k + 1] == r.query@[k + 1]@);
        assert(r.query@[k + 1]@ == (params[i].0, params[i].1->Some_0));
        assert forall|m: int| 0 <= m < r.query.len() && m != k + 1 implies r.query@[m]@.0
            != params[i].0 by {
            assert(q[m] == r.query@[m]@);
            if m > 0 {
                assert(q[m] == pp[m - 1]);
                assert(pp[m - 1].0 != params[i].0);
            }
        }
    } else {
        assert forall|m: int| 0 <= m < r.query.len() implies r.query@[m]@.0 != params[i].0 by {
            assert(q[m] == r.query@[m]@);
            if m > 0 {
                assert(q[m] == pp[m - 1]);
                assert(pp[m - 1].0 != params[i].0);
            }
        }
    }
}

/// The query of every request starts with the API version pair, and no other
/// pair carries that name.
pub proof fn lemma_api_version_in_query(
    r: HttpRequest,
    op: Operation,
    endpoint: Seq<char>,
    organization: Seq<char>,
    path: Seq<char>,
    params: Seq<(Seq<char>, Option<Seq<char>>)>,
    authorization: Option<Seq<char>>,
    body: Seq<u8>,
)
    requires
        is_request(r, op, endpoint, organization, path, params, authorization, body),
        no_version_param(params),
    ensures
        r.query.len() >= 1,
        r.query@[0]@ == (api_version_name(), api_version()),
        forall|k: int| 1 <= k < r.query.len() ==> r.query@[k]@.0 != api_version_name(),
{
    let q = pairs_view(r.query@);
    let pp = present_pairs(params);
    lemma_name_absent(params, api_version_name());
    assert(q.len() == r.query.len());
    assert(q[0] == r.query@[0]@);
    assert forall|k: int| 1 <= k < r.query.len() implies r.query@[k]@.0 != api_version_name() by {
        assert(q[k] == r.query@[k]@);
        assert(q[k] == pp[k - 1]);
    }
}

/// Without a credential's answer the request has no authorization header;
/// with one it has exactly one, carrying that value.
pub proof fn lemma_authorization_header(
    r: HttpRequest,
    op: Operation,
    endpoint: Seq<char>,
    organization: Seq<char>,
    path: Seq<char>,
    params: Seq<(Seq<char>, Option<Seq<char>>)>,
    authorization: Option<Seq<char>>,
    body: Seq<u8>,
)
    requires
        is_request(r, op, endpoint, organization, path, params, authorization, body),
    ensures
        authorization is None ==> forall|k: int|
            0 <= k < r.headers.len() ==> r.headers@[k]@.0 != authorization_name(),
        authorization is Some ==> r.headers.len() >= 1 && r.headers@[0]@ == (
            authorization_name(),
            authorization->Some_0,
        ) && forall|k: int|
            1 <= k < r.headers.len() ==> r.headers@[k]@.0 != authorization_name(),
{
    reveal_strlit("authorization");
    reveal_strlit("content-type");
    let h = headers_view(r.headers@);
    assert(h.len() == r.headers.len());
    assert(content_type_name().len() != authorization_name().len());
    assert forall|k: int| 0 <= k < r.headers.len() implies #[trigger] r.headers@[k]@ == h[k] by {}
    assert forall|k: int| 0 <= k < h.len() && h[k].0 == authorization_name() implies k == 0
        && authorization is Some by {
        match authorization {
            Some(v) => {},
            None => {},
        }
    }
}

} // verus!
