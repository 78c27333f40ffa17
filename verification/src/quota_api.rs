//! The quota endpoints of the cluster scheduler's HTTP API, split at the
//! transport boundary: these functions decide exactly what each call sends —
//! method, path, query parameters and headers, in order — as a plain
//! [`RequestPlan`]; an unverified HTTP layer then performs the plan and hands
//! the status code back to [`response_is_success`].

use vstd::prelude::*;

verus! {

/// An API key and its optional scheme prefix, sent as the token header.
#[derive(Clone, Debug)]
pub struct ApiKey {
    pub prefix: Option<String>,
    pub key: String,
}

/// What the client configuration contributes to every request.
#[derive(Clone, Debug)]
pub struct QuotaApiConfig {
    pub user_agent: Option<String>,
    pub api_key: Option<ApiKey>,
}

/// The HTTP method of a planned request.
#[derive(Clone, Copy, Debug, PartialEq, Eq, Structural)]
pub enum HttpMethod {
    Get,
    Post,
    Delete,
}

/// The path of a planned request, relative to the configured base path. A
/// carried quota name is raw: the transport layer URL-encodes it.
#[derive(Clone, Debug, PartialEq, Eq)]
pub enum QuotaPath {
    Quota,
    QuotaNamed(String),
    Quotas,
}

/// One query parameter, by name.
#[derive(Clone, Debug, PartialEq, Eq)]
pub enum QueryParam {
    Region(String),
    Namespace(String),
    IdempotencyToken(String),
    Wait(String),
    Stale(String),
    Prefix(String),
    PerPage(i32),
    NextToken(String),
}

/// One request header, by name. Both token variants are sent as the scheduler
/// token header; the prefixed one as `"{prefix} {key}"`.
#[derive(Clone, Debug, PartialEq, Eq)]
pub enum Header {
    UserAgent(String),
    Index(i32),
    NomadToken(String),
    NomadTokenPrefixed(String, String),
}

/// Everything a quota request sends, in the order it is sent.
#[derive(Clone, Debug)]
pub struct RequestPlan {
    pub method: HttpMethod,
    pub path: QuotaPath,
    pub query: Vec<QueryParam>,
    pub headers: Vec<Header>,
    pub json_body: bool,
}

/// The query parameters contributed by an optional region.
pub open spec fn region_params(o: Option<String>) -> Seq<QueryParam> {
    match o {
        Some(s) => seq![QueryParam::Region(s)],
        None => seq![],
    }
}

/// The query parameters contributed by an optional namespace.
pub open spec fn namespace_params(o: Option<String>) -> Seq<QueryParam> {
    match o {
        Some(s) => seq![QueryParam::Namespace(s)],
        None => seq![],
    }
}

/// The query parameters contributed by an optional idempotency token.
pub open spec fn idempotency_params(o: Option<String>) -> Seq<QueryParam> {
    match o {
        Some(s) => seq![QueryParam::IdempotencyToken(s)],
        None => seq![],
    }
}

/// The query parameters contributed by an optional long-poll wait time.
pub open spec fn wait_params(o: Option<String>) -> Seq<QueryParam> {
    match o {
        Some(s) => seq![QueryParam::Wait(s)],
        None => seq![],
    }
}

/// The query parameters contributed by an optional staleness setting.
pub open spec fn stale_params(o: Option<String>) -> Seq<QueryParam> {
    match o {
        Some(s) => seq![QueryParam::Stale(s)],
        None => seq![],
    }
}

/// The query parameters contributed by an optional name prefix filter.
pub open spec fn prefix_params(o: Option<String>) -> Seq<QueryParam> {
    match o {
        Some(s) => seq![QueryParam::Prefix(s)],
        None => seq![],
    }
}

/// The query parameters contributed by an optional page size.
pub open spec fn per_page_params(o: Option<i32>) -> Seq<QueryParam> {
    match o {
        Some(n) => seq![QueryParam::PerPage(n)],
        None => seq![],
    }
}

/// The query parameters contributed by an optional pagination token.
pub open spec fn next_token_params(o: Option<String>) -> Seq<QueryParam> {
    match o {
        Some(s) => seq![QueryParam::NextToken(s)],
        None => seq![],
    }
}

/// The header contributed by an optional user agent.
pub open spec fn user_agent_headers(o: Option<String>) -> Seq<Header> {
    match o {
        Some(s) => seq![Header::UserAgent(s)],
        None => seq![],
    }
}

/// The header contributed by an optional long-poll index.
pub open spec fn index_headers(o: Option<i32>) -> Seq<Header> {
    match o {
        Some(n) => seq![Header::Index(n)],
        None => seq![],
    }
}

/// The header contributed by an explicitly passed token.
pub open spec fn token_headers(o: Option<String>) -> Seq<Header> {
    match o {
        Some(s) => seq![Header::NomadToken(s)],
        None => seq![],
    }
}

/// The header contributed by a configured API key: the key alone, or prefixed
/// by its scheme. It is sent after, and in addition to, an explicit token.
pub open spec fn api_key_headers(o: Option<ApiKey>) -> Seq<Header> {
    match o {
        Some(k) => match k.prefix {
            Some(p) => seq![Header::NomadTokenPrefixed(p, k.key)],
            None => seq![Header::NomadToken(k.key)],
        },
        None => seq![],
    }
}

/// Push the API key header the configuration calls for, if any.
fn push_api_key_headers(headers: &mut Vec<Header>, config: &QuotaApiConfig)
    ensures
        final(headers)@ == old(headers)@ + api_key_headers(config.api_key),
{
    let ghost headers0 = headers@;
    match &config.api_key {
        Some(k) => {
            match &k.prefix {
                Some(p) => {
                    headers.push(Header::NomadTokenPrefixed(p.clone(), k.key.clone()));
                },
                None => {
                    headers.push(Header::NomadToken(k.key.clone()));
                },
            }
        },
        None => {},
    }
    proof {
        assert(headers@ =~= headers0 + api_key_headers(config.api_key));
    }
}

/// Plan the creation of a new quota specification: a POST of the
/// specification as a JSON body to the quota endpoint.
pub fn create_quota_spec_plan(
    config: &QuotaApiConfig,
    region: Option<String>,
    namespace: Option<String>,
    x_nomad_token: Option<String>,
    idempotency_token: Option<String>,
) -> (plan: RequestPlan)
    ensures
        plan.method is Post,
        plan.path == QuotaPath::Quota,
        plan.json_body,
        plan.query@ == region_params(region) + namespace_params(namespace) + idempotency_params(
            idempotency_token,
        ),
        plan.headers@ == user_agent_headers(config.user_agent) + token_headers(x_nomad_token)
            + api_key_headers(config.api_key),
{
    let ghost g_region = region;
    let ghost g_namespace = namespace;
    let ghost g_idempotency = idempotency_token;
    let ghost g_token = x_nomad_token;
    let mut query: Vec<QueryParam> = Vec::new();
    if let Some(s) = region {
        query.push(QueryParam::Region(s));
    }
    if let Some(s) = namespace {
        query.push(QueryParam::Namespace(s));
    }
    if let Some(s) = idempotency_token {
        query.push(QueryParam::IdempotencyToken(s));
    }
    proof {
        assert(query@ =~= region_params(g_region) + namespace_params(g_namespace)
            + idempotency_params(g_idempotency));
    }
    let mut headers: Vec<Header> = Vec::new();
    if let Some(s) = &config.user_agent {
        headers.push(Header::UserAgent(s.clone()));
    }
    if let Some(s) = x_nomad_token {
        headers.push(Header::NomadToken(s));
    }
    proof {
        assert(headers@ =~= user_agent_headers(config.user_agent) + token_headers(g_token));
    }
    push_api_key_headers(&mut headers, config);
    RequestPlan { method: HttpMethod::Post, path: QuotaPath::Quota, query, headers, json_body: true }
}

/// Plan the deletion of a named quota specification.
pub fn delete_quota_spec_plan(
    config: &QuotaApiConfig,
    spec_name: String,
    region: Option<String>,
    namespace: Option<String>,
    x_nomad_token: Option<String>,
    idempotency_token: Option<String>,
) -> (plan: RequestPlan)
    ensures
        plan.method is Delete,
        plan.path == QuotaPath::QuotaNamed(spec_name),
        !plan.json_body,
        plan.query@ == region_params(region) + namespace_params(namespace) + idempotency_params(
            idempotency_token,
        ),
        plan.headers@ == user_agent_headers(config.user_agent) + token_headers(x_nomad_token)
            + api_key_headers(config.api_key),
{
    let ghost g_region = region;
    let ghost g_namespace = namespace;
    let ghost g_idempotency = idempotency_token;
    let ghost g_token = x_nomad_token;
    let mut query: Vec<QueryParam> = Vec::new();
    if let Some(s) = region {
        query.push(QueryParam::Region(s));
    }
    if let Some(s) = namespace {
        query.push(QueryParam::Namespace(s));
    }
    if let Some(s) = idempotency_token {
        query.push(QueryParam::IdempotencyToken(s));
    }
    proof {
        assert(query@ =~= region_params(g_region) + namespace_params(g_namespace)
            + idempotency_params(g_idempotency));
    }
    let mut headers: Vec<Header> = Vec::new();
    if let Some(s) = &config.user_agent {
        headers.push(Header::UserAgent(s.clone()));
    }
    if let Some(s) = x_nomad_token {
        headers.push(Header::NomadToken(s));
    }
    proof {
        assert(headers@ =~= user_agent_headers(config.user_agent) + token_headers(g_token));
    }
    push_api_key_headers(&mut headers, config);
    RequestPlan {
        method: HttpMethod::Delete,
        path: QuotaPath::QuotaNamed(spec_name),
        query,
        headers,
        json_body: false,
    }
}

/// Plan fetching one named quota specification.
#[verifier::rlimit(50)]
pub fn get_quota_spec_plan(
    config: &QuotaApiConfig,
    spec_name: String,
    region: Option<String>,
    namespace: Option<String>,
    index: Option<i32>,
    wait: Option<String>,
    stale: Option<String>,
    prefix: Option<String>,
    x_nomad_token: Option<String>,
    per_page: Option<i32>,
    next_token: Option<String>,
) -> (plan: RequestPlan)
    ensures
        plan.method is Get,
        plan.path == QuotaPath::QuotaNamed(spec_name),
        !plan.json_body,
        plan.query@ == region_params(region) + namespace_params(namespace) + wait_params(wait)
            + stale_params(stale) + prefix_params(prefix) + per_page_params(per_page)
            + next_token_params(next_token),
        plan.headers@ == user_agent_headers(config.user_agent) + index_headers(index)
            + token_headers(x_nomad_token) + api_key_headers(config.api_key),
{
    let ghost g_region = region;
    let ghost g_namespace = namespace;
    let ghost g_wait = wait;
    let ghost g_stale = stale;
    let ghost g_prefix = prefix;
    let ghost g_per_page = per_page;
    let ghost g_next_token = next_token;
    let ghost g_token = x_nomad_token;
    let mut query: Vec<QueryParam> = Vec::new();
    if let Some(s) = region {
        query.push(QueryParam::Region(s));
    }
    if let Some(s) = namespace {
        query.push(QueryParam::Namespace(s));
    }
    proof {
        assert(query@ =~= region_params(g_region) + namespace_params(g_namespace));
    }
    if let Some(s) = wait {
        query.push(QueryParam::Wait(s));
    }
    if let Some(s) = stale {
        query.push(QueryParam::Stale(s));
    }
    proof {
        assert(query@ =~= region_params(g_region) + namespace_params(g_namespace) + wait_params(
            g_wait,
        ) + stale_params(g_stale));
    }
    if let Some(s) = prefix {
        query.push(QueryParam::Prefix(s));
    }
    if let Some(n) = per_page {
        query.push(QueryParam::PerPage(n));
    }
    if let Some(s) = next_token {
        query.push(QueryParam::NextToken(s));
    }
    proof {
        assert(query@ =~= region_params(g_region) + namespace_params(g_namespace) + wait_params(
            g_wait,
        ) + stale_params(g_stale) + prefix_params(g_prefix) + per_page_params(g_per_page)
            + next_token_params(g_next_token));
    }
    let mut headers: Vec<Header> = Vec::new();
    if let Some(s) = &config.user_agent {
        headers.push(Header::UserAgent(s.clone()));
    }
    if let Some(n) = index {
        headers.push(Header::Index(n));
    }
    if let Some(s) = x_nomad_token {
        headers.push(Header::NomadToken(s));
    }
    proof {
        assert(headers@ =~= user_agent_headers(config.user_agent) + index_headers(index)
            + token_headers(g_token));
    }
    push_api_key_headers(&mut headers, config);
    RequestPlan {
        method: HttpMethod::Get,
        path: QuotaPath::QuotaNamed(spec_name),
        query,
        headers,
        json_body: false,
    }
}

/// Plan listing all quota specifications.
#[verifier::rlimit(50)]
pub fn get_quotas_plan(
    config: &QuotaApiConfig,
    region: Option<String>,
    namespace: Option<String>,
    index: Option<i32>,
    wait: Option<String>,
    stale: Option<String>,
    prefix: Option<String>,
    x_nomad_token: Option<String>,
    per_page: Option<i32>,
    next_token: Option<String>,
) -> (plan: RequestPlan)
    ensures
        plan.method is Get,
        plan.path == QuotaPath::Quotas,
        !plan.json_body,
        plan.query@ == region_params(region) + namespace_params(namespace) + wait_params(wait)
            + stale_params(stale) + prefix_params(prefix) + per_page_params(per_page)
            + next_token_params(next_token),
        plan.headers@ == user_agent_headers(config.user_agent) + index_headers(index)
            + token_headers(x_nomad_token) + api_key_headers(config.api_key),
{
    let ghost g_region = region;
    let ghost g_namespace = namespace;
    let ghost g_wait = wait;
    let ghost g_stale = stale;
    let ghost g_prefix = prefix;
    let ghost g_per_page = per_page;
    let ghost g_next_token = next_token;
    let ghost g_token = x_nomad_token;
    let mut query: Vec<QueryParam> = Vec::new();
    if let Some(s) = region {
        query.push(QueryParam::Region(s));
    }
    if let Some(s) = namespace {
        query.push(QueryParam::Namespace(s));
    }
    proof {
        assert(query@ =~= region_params(g_region) + namespace_params(g_namespace));
    }
    if let Some(s) = wait {
        query.push(QueryParam::Wait(s));
    }
    if let Some(s) = stale {
        query.push(QueryParam::Stale(s));
    }
    proof {
        assert(query@ =~= region_params(g_region) + namespace_params(g_namespace) + wait_params(
            g_wait,
        ) + stale_params(g_stale));
    }
    if let Some(s) = prefix {
        query.push(QueryParam::Prefix(s));
    }
    if let Some(n) = per_page {
        query.push(QueryParam::PerPage(n));
    }
    if let Some(s) = next_token {
        query.push(QueryParam::NextToken(s));
    }
    proof {
        assert(query@ =~= region_params(g_region) + namespace_params(g_namespace) + wait_params(
            g_wait,
        ) + stale_params(g_stale) + prefix_params(g_prefix) + per_page_params(g_per_page)
            + next_token_params(g_next_token));
    }
    let mut headers: Vec<Header> = Vec::new();
    if let Some(s) = &config.user_agent {
        headers.push(Header::UserAgent(s.clone()));
    }
    if let Some(n) = index {
        headers.push(Header::Index(n));
    }
    if let Some(s) = x_nomad_token {
        headers.push(Header::NomadToken(s));
    }
    proof {
        assert(headers@ =~= user_agent_headers(config.user_agent) + index_headers(index)
            + token_headers(g_token));
    }
    push_api_key_headers(&mut headers, config);
    RequestPlan {
        method: HttpMethod::Get,
        path: QuotaPath::Quotas,
        query,
        headers,
        json_body: false,
    }
}

/// Plan updating a named quota specification: a POST of the specification as
/// a JSON body to its path.
pub fn post_quota_spec_plan(
    config: &QuotaApiConfig,
    spec_name: String,
    region: Option<String>,
    namespace: Option<String>,
    x_nomad_token: Option<String>,
    idempotency_token: Option<String>,
) -> (plan: RequestPlan)
    ensures
        plan.method is Post,
        plan.path == QuotaPath::QuotaNamed(spec_name),
        plan.json_body,
        plan.query@ == region_params(region) + namespace_params(namespace) + idempotency_params(
            idempotency_token,
        ),
        plan.headers@ == user_agent_headers(config.user_agent) + token_headers(x_nomad_token)
            + api_key_headers(config.api_key),
{
    let ghost g_region = region;
    let ghost g_namespace = namespace;
    let ghost g_idempotency = idempotency_token;
    let ghost g_token = x_nomad_token;
    let mut query: Vec<QueryParam> = Vec::new();
    if let Some(s) = region {
        query.push(QueryParam::Region(s));
    }
    if let Some(s) = namespace {
        query.push(QueryParam::Namespace(s));
    }
    if let Some(s) = idempotency_token {
        query.push(QueryParam::IdempotencyToken(s));
    }
    proof {
        assert(query@ =~= region_params(g_region) + namespace_params(g_namespace)
            + idempotency_params(g_idempotency));
    }
    let mut headers: Vec<Header> = Vec::new();
    if let Some(s) = &config.user_agent {
        headers.push(Header::UserAgent(s.clone()));
    }
    if let Some(s) = x_nomad_token {
        headers.push(Header::NomadToken(s));
    }
    proof {
        assert(headers@ =~= user_agent_headers(config.user_agent) + token_headers(g_token));
    }
    push_api_key_headers(&mut headers, config);
    RequestPlan {
        method: HttpMethod::Post,
        path: QuotaPath::QuotaNamed(spec_name),
        query,
        headers,
        json_body: true,
    }
}

/// A response counts as success exactly when its status is neither a client
/// error nor a server error (outside 400..=599).
pub fn response_is_success(status: u16) -> (r: bool)
    ensures
        r <==> !(400 <= status <= 599),
{
    !(400 <= status && status <= 599)
}

} // verus!
