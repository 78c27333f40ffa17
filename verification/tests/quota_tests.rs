//! Tests for the quota request plans: each builder fixes the method, path,
//! body, query-parameter order and header order exactly.

use plugin_work_queue::quota_api::{
    create_quota_spec_plan, delete_quota_spec_plan, get_quota_spec_plan, get_quotas_plan,
    post_quota_spec_plan, response_is_success, ApiKey, Header, HttpMethod, QueryParam,
    QuotaApiConfig, QuotaPath,
};

fn bare_config() -> QuotaApiConfig {
    QuotaApiConfig { user_agent: None, api_key: None }
}

fn full_config() -> QuotaApiConfig {
    QuotaApiConfig {
        user_agent: Some("nomad-client".to_owned()),
        api_key: Some(ApiKey { prefix: Some("Bearer".to_owned()), key: "example-api-key".to_owned() }),
    }
}

#[test]
fn create_plan_posts_json_to_quota() {
    let plan = create_quota_spec_plan(
        &bare_config(),
        Some("eu".to_owned()),
        None,
        Some("token".to_owned()),
        Some("idem-1".to_owned()),
    );
    assert_eq!(plan.method, HttpMethod::Post);
    assert_eq!(plan.path, QuotaPath::Quota);
    assert!(plan.json_body);
    assert_eq!(
        plan.query,
        vec![
            QueryParam::Region("eu".to_owned()),
            QueryParam::IdempotencyToken("idem-1".to_owned()),
        ]
    );
    assert_eq!(plan.headers, vec![Header::NomadToken("token".to_owned())]);
}

#[test]
fn create_plan_with_full_config_orders_headers() {
    let plan = create_quota_spec_plan(&full_config(), None, None, Some("explicit".to_owned()), None);
    assert_eq!(
        plan.headers,
        vec![
            Header::UserAgent("nomad-client".to_owned()),
            Header::NomadToken("explicit".to_owned()),
            Header::NomadTokenPrefixed("Bearer".to_owned(), "example-api-key".to_owned()),
        ]
    );
    assert!(plan.query.is_empty());
}

#[test]
fn delete_plan_targets_the_named_spec() {
    let plan = delete_quota_spec_plan(
        &bare_config(),
        "team a".to_owned(),
        None,
        Some("default".to_owned()),
        None,
        None,
    );
    assert_eq!(plan.method, HttpMethod::Delete);
    assert_eq!(plan.path, QuotaPath::QuotaNamed("team a".to_owned()));
    assert!(!plan.json_body);
    assert_eq!(plan.query, vec![QueryParam::Namespace("default".to_owned())]);
}

#[test]
fn get_plan_orders_all_seven_query_parameters() {
    let plan = get_quota_spec_plan(
        &bare_config(),
        "team-a".to_owned(),
        Some("eu".to_owned()),
        Some("default".to_owned()),
        Some(42),
        Some("5s".to_owned()),
        Some("stale".to_owned()),
        Some("team".to_owned()),
        Some("token".to_owned()),
        Some(25),
        Some("page-2".to_owned()),
    );
    assert_eq!(plan.method, HttpMethod::Get);
    assert_eq!(plan.path, QuotaPath::QuotaNamed("team-a".to_owned()));
    assert_eq!(
        plan.query,
        vec![
            QueryParam::Region("eu".to_owned()),
            QueryParam::Namespace("default".to_owned()),
            QueryParam::Wait("5s".to_owned()),
            QueryParam::Stale("stale".to_owned()),
            QueryParam::Prefix("team".to_owned()),
            QueryParam::PerPage(25),
            QueryParam::NextToken("page-2".to_owned()),
        ]
    );
    assert_eq!(
        plan.headers,
        vec![Header::Index(42), Header::NomadToken("token".to_owned())]
    );
}

#[test]
fn get_quotas_plan_lists_without_a_name() {
    let plan = get_quotas_plan(
        &full_config(),
        None,
        None,
        None,
        None,
        None,
        None,
        None,
        None,
        None,
    );
    assert_eq!(plan.method, HttpMethod::Get);
    assert_eq!(plan.path, QuotaPath::Quotas);
    assert!(plan.query.is_empty());
    assert_eq!(
        plan.headers,
        vec![
            Header::UserAgent("nomad-client".to_owned()),
            Header::NomadTokenPrefixed("Bearer".to_owned(), "example-api-key".to_owned()),
        ]
    );
}

#[test]
fn post_plan_updates_the_named_spec() {
    let key_only = QuotaApiConfig {
        user_agent: None,
        api_key: Some(ApiKey { prefix: None, key: "example-api-key".to_owned() }),
    };
    let plan = post_quota_spec_plan(&key_only, "team-a".to_owned(), None, None, None, None);
    assert_eq!(plan.method, HttpMethod::Post);
    assert_eq!(plan.path, QuotaPath::QuotaNamed("team-a".to_owned()));
    assert!(plan.json_body);
    assert_eq!(plan.headers, vec![Header::NomadToken("example-api-key".to_owned())]);
}

#[test]
fn success_is_everything_outside_the_error_ranges() {
    assert!(response_is_success(200));
    assert!(response_is_success(204));
    assert!(response_is_success(399));
    assert!(!response_is_success(400));
    assert!(!response_is_success(404));
    assert!(!response_is_success(500));
    assert!(!response_is_success(599));
    assert!(response_is_success(600));
}
