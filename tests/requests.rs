use member_entitlements::client::{Client, ClientBuilder, DEFAULT_ENDPOINT};
use member_entitlements::http::{format_bool, format_i32, HttpRequest, Method};

fn default_client() -> Client {
    Client::builder().build()
}

fn header<'a>(r: &'a HttpRequest, name: &str) -> Vec<&'a str> {
    r.headers
        .iter()
        .filter(|h| h.name == name)
        .map(|h| h.value.as_str())
        .collect()
}

fn query(r: &HttpRequest) -> Vec<(String, String)> {
    r.query
        .iter()
        .map(|p| (p.name.clone(), p.value.clone()))
        .collect()
}

#[test]
fn list_group_entitlements_request() {
    let c = default_client();
    let b = c.group_entitlements_client().list("contoso".to_string());
    let r = b.request(None);
    assert_eq!(r.method, Method::Get);
    assert_eq!(
        r.url,
        "https://vsaex.dev.azure.com/contoso/_apis/groupentitlements?api-version=7.1-preview"
    );
    assert!(r.body.is_empty());
    assert!(r.headers.is_empty());
}

#[test]
fn delete_group_with_rule_option_and_membership() {
    let c = default_client();
    let b = c
        .group_entitlements_client()
        .delete("contoso".to_string(), "g1".to_string())
        .rule_option("ApplyGroupRule".to_string())
        .remove_group_membership(true);
    let r = b.request(None);
    assert_eq!(r.method, Method::Delete);
    assert_eq!(
        r.url,
        "https://vsaex.dev.azure.com/contoso/_apis/groupentitlements/g1?api-version=7.1-preview&ruleOption=ApplyGroupRule&removeGroupMembership=true"
    );
}

#[test]
fn delete_group_without_rule_option_omits_it() {
    let c = default_client();
    let b = c
        .group_entitlements_client()
        .delete("contoso".to_string(), "g1".to_string())
        .remove_group_membership(true);
    let r = b.request(None);
    assert_eq!(
        r.url,
        "https://vsaex.dev.azure.com/contoso/_apis/groupentitlements/g1?api-version=7.1-preview&removeGroupMembership=true"
    );
    assert!(query(&r).iter().all(|(n, _)| n != "ruleOption"));
}

#[test]
fn absent_optional_parameters_do_not_appear() {
    let c = default_client();
    let r = c
        .user_entitlements_client()
        .search_user_entitlements("contoso".to_string())
        .request(None);
    assert_eq!(
        query(&r),
        vec![("api-version".to_string(), "7.1-preview".to_string())]
    );
    assert_eq!(
        r.url,
        "https://vsaex.dev.azure.com/contoso/_apis/userentitlements?api-version=7.1-preview"
    );
}

#[test]
fn present_parameters_appear_once_and_encoded() {
    let c = default_client();
    let r = c
        .user_entitlements_client()
        .search_user_entitlements("contoso".to_string())
        .filter("name eq 'a b'".to_string())
        .order_by("name Ascending".to_string())
        .request(None);
    let q = query(&r);
    assert_eq!(q.len(), 3);
    assert_eq!(q.iter().filter(|(n, _)| n == "$filter").count(), 1);
    assert!(q.contains(&("$filter".to_string(), "name eq 'a b'".to_string())));
    assert_eq!(
        r.url,
        "https://vsaex.dev.azure.com/contoso/_apis/userentitlements?api-version=7.1-preview&%24filter=name+eq+%27a+b%27&%24orderBy=name+Ascending"
    );
}

#[test]
fn search_with_every_parameter_keeps_declared_order() {
    let c = default_client();
    let r = c
        .user_entitlements_client()
        .search_user_entitlements("org".to_string())
        .order_by("o".to_string())
        .filter("f".to_string())
        .select("s".to_string())
        .continuation_token("t".to_string())
        .request(None);
    let names: Vec<String> = query(&r).into_iter().map(|(n, _)| n).collect();
    assert_eq!(
        names,
        vec!["api-version", "continuationToken", "select", "$filter", "$orderBy"]
    );
}

#[test]
fn api_version_is_first_for_every_operation() {
    let c = default_client();
    let ge = c.group_entitlements_client();
    let m = c.members_client();
    let ue = c.user_entitlements_client();
    let us = c.user_entitlement_summary_client();
    let o = || "o".to_string();
    let id = || "x".to_string();
    let requests = vec![
        ge.list(o()).request(None),
        ge.add(o(), b"{}".to_vec()).rule_option("r".to_string()).request(None),
        ge.get(o(), id()).request(None),
        ge.update(o(), b"[]".to_vec(), id()).request(None),
        ge.delete(o(), id()).request(None),
        m.get(o(), id()).max_results(3).request(None),
        m.add(o(), id(), id()).request(None),
        m.remove_member_from_group(o(), id(), id()).request(None),
        ue.search_user_entitlements(o()).request(None),
        ue.add(o(), b"{}".to_vec()).request(None),
        ue.update_user_entitlements(o(), b"[]".to_vec())
            .do_not_send_invite_for_new_users(false)
            .request(None),
        ue.get(o(), id()).request(None),
        ue.update_user_entitlement(o(), b"[]".to_vec(), id()).request(None),
        ue.delete(o(), id()).request(None),
        us.get(o()).select("Licenses".to_string()).request(None),
    ];
    for r in &requests {
        let q = query(r);
        assert_eq!(q[0], ("api-version".to_string(), "7.1-preview".to_string()));
        assert_eq!(q.iter().filter(|(n, _)| n == "api-version").count(), 1);
        assert!(r.url.contains("?api-version=7.1-preview"));
    }
}

#[test]
fn no_token_means_no_authorization_header() {
    let c = default_client();
    let r = c.user_entitlements_client().get("o".to_string(), "u1".to_string()).request(None);
    assert!(header(&r, "authorization").is_empty());
}

#[test]
fn token_is_sent_as_given() {
    let c = default_client();
    let r = c
        .user_entitlements_client()
        .get("o".to_string(), "u1".to_string())
        .request(Some("Bearer abc".to_string()));
    assert_eq!(header(&r, "authorization"), vec!["Bearer abc"]);
}

#[test]
fn json_body_and_content_type() {
    let c = default_client();
    let body = br#"{"group":{"displayName":"devs"}}"#.to_vec();
    let r = c
        .group_entitlements_client()
        .add("contoso".to_string(), body.clone())
        .rule_option("TestApplyGroupRule".to_string())
        .request(Some("Basic xyz".to_string()));
    assert_eq!(r.method, Method::Post);
    assert_eq!(r.body, body);
    assert_eq!(header(&r, "content-type"), vec!["application/json"]);
    assert_eq!(header(&r, "authorization"), vec!["Basic xyz"]);
    assert_eq!(
        r.url,
        "https://vsaex.dev.azure.com/contoso/_apis/groupentitlements?api-version=7.1-preview&ruleOption=TestApplyGroupRule"
    );
}

#[test]
fn patch_body_content_type() {
    let c = default_client();
    let body = br#"[{"op":"replace","path":"/accessLevel","value":{}}]"#.to_vec();
    let r = c
        .user_entitlements_client()
        .update_user_entitlement("contoso".to_string(), body.clone(), "u1".to_string())
        .request(None);
    assert_eq!(r.method, Method::Patch);
    assert_eq!(r.body, body);
    assert_eq!(header(&r, "content-type"), vec!["application/json-patch+json"]);
    assert_eq!(
        r.url,
        "https://vsaex.dev.azure.com/contoso/_apis/userentitlements/u1?api-version=7.1-preview"
    );
}

#[test]
fn update_user_entitlements_invite_flag() {
    let c = default_client();
    let r = c
        .user_entitlements_client()
        .update_user_entitlements("contoso".to_string(), b"[]".to_vec())
        .do_not_send_invite_for_new_users(false)
        .request(None);
    assert_eq!(
        r.url,
        "https://vsaex.dev.azure.com/contoso/_apis/userentitlements?api-version=7.1-preview&doNotSendInviteForNewUsers=false"
    );
}

#[test]
fn member_paths_and_methods() {
    let c = default_client();
    let m = c.members_client();
    let add = m.add("o".to_string(), "g".to_string(), "m".to_string()).request(None);
    assert_eq!(add.method, Method::Put);
    assert_eq!(
        add.url,
        "https://vsaex.dev.azure.com/o/_apis/GroupEntitlements/g/members/m?api-version=7.1-preview"
    );
    let rm = m
        .remove_member_from_group("o".to_string(), "g".to_string(), "m".to_string())
        .request(None);
    assert_eq!(rm.method, Method::Delete);
    assert_eq!(rm.url, add.url);
    assert!(rm.headers.is_empty());
}

#[test]
fn members_paging_parameters() {
    let c = default_client();
    let r = c
        .members_client()
        .get("o".to_string(), "g".to_string())
        .paging_token("a/b c".to_string())
        .max_results(-25)
        .request(None);
    assert_eq!(
        r.url,
        "https://vsaex.dev.azure.com/o/_apis/GroupEntitlements/g/members?api-version=7.1-preview&maxResults=-25&pagingToken=a%2Fb+c"
    );
}

#[test]
fn summary_select() {
    let c = default_client();
    let r = c
        .user_entitlement_summary_client()
        .get("o".to_string())
        .select("Licenses,Projects".to_string())
        .request(None);
    assert_eq!(
        r.url,
        "https://vsaex.dev.azure.com/o/_apis/userentitlementsummary?api-version=7.1-preview&select=Licenses%2CProjects"
    );
}

#[test]
fn default_client_settings() {
    let c = ClientBuilder::new().build();
    assert_eq!(c.endpoint, DEFAULT_ENDPOINT);
    assert_eq!(c.scopes, vec!["https://vsaex.dev.azure.com/".to_string()]);
}

#[test]
fn custom_client_settings() {
    let c = Client::builder()
        .endpoint("https://example.test".to_string())
        .build();
    assert_eq!(c.scopes, vec!["https://example.test/".to_string()]);
    let c = Client::builder()
        .endpoint("https://example.test".to_string())
        .scopes(&["a", "b"])
        .build();
    assert_eq!(c.endpoint, "https://example.test");
    assert_eq!(c.scopes, vec!["a".to_string(), "b".to_string()]);
    let r = c.group_entitlements_client().get("o".to_string(), "g".to_string()).request(None);
    assert_eq!(
        r.url,
        "https://example.test/o/_apis/groupentitlements/g?api-version=7.1-preview"
    );
    let n = Client::new("e".to_string(), vec![]);
    assert_eq!(n.endpoint, "e");
    assert!(n.scopes.is_empty());
}

#[test]
fn number_and_bool_text() {
    assert_eq!(format_i32(0), "0");
    assert_eq!(format_i32(7), "7");
    assert_eq!(format_i32(100), "100");
    assert_eq!(format_i32(-25), "-25");
    assert_eq!(format_i32(i32::MAX), "2147483647");
    assert_eq!(format_i32(i32::MIN), "-2147483648");
    assert_eq!(format_bool(true), "true");
    assert_eq!(format_bool(false), "false");
}
