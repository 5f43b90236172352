//! The HTTP+JSON gateway: rate limiting by path, routing to the service
//! handlers, JSON responses, and the structure check of bearer tokens.
use vstd::prelude::*;
use vstd::string::StrSliceExecFns;
use crate::error::{spec_http_status, ErrorCode, WcError};
use crate::external::{base64_decode, base64_decoded_of, hex_decode, hex_decoded, json_escaped, json_quote, utf8_decode};
use crate::network::rate_limit::{after_consume, bucket_before, spec_per_minute, BucketKey, RateLimitClass, RateLimiter};
use crate::text::{decimal, has_prefix, join3, spec_decimal, starts_with, str_eq};

verus! {

/// A response as values: status, body, headers.
pub type ResponseView = (u16, Seq<char>, Seq<(Seq<char>, Seq<char>)>);

/// An HTTP response of the gateway.
#[derive(Debug, Clone)]
pub struct RestResponse {
    /// HTTP status code.
    pub status: u16,
    /// JSON body.
    pub body: String,
    /// Extra headers as (name, value).
    pub headers: Vec<(String, String)>,
}

/// Text views of header pairs.
pub open spec fn header_views(h: Seq<(String, String)>) -> Seq<(Seq<char>, Seq<char>)> {
    h.map_values(|p: (String, String)| (p.0@, p.1@))
}

impl View for RestResponse {
    type V = ResponseView;

    open spec fn view(&self) -> ResponseView {
        (self.status, self.body@, header_views(self.headers@))
    }
}

/// The JSON content-type header.
pub open spec fn json_headers() -> Seq<(Seq<char>, Seq<char>)> {
    seq![("content-type"@, "application/json"@)]
}

/// A 200 response with a JSON body.
pub open spec fn ok_view(body: Seq<char>) -> ResponseView {
    (200, body, json_headers())
}

/// The JSON body of an error: `{"error":<message>,"status":<status>}`.
pub open spec fn error_body(status: u16, message: Seq<char>) -> Seq<char> {
    "{\"error\":"@ + seq!['"'] + json_escaped(message) + seq!['"'] + ",\"status\":"@ + spec_decimal(status as nat) + "}"@
}

/// An error response.
pub open spec fn error_view(status: u16, message: Seq<char>) -> ResponseView {
    (status, error_body(status, message), json_headers())
}

fn json_header_list() -> (r: Vec<(String, String)>)
    ensures
        header_views(r@) == json_headers(),
{
    let mut h: Vec<(String, String)> = Vec::new();
    h.push((String::from_str("content-type"), String::from_str("application/json")));
    assert(header_views(h@) =~= json_headers());
    h
}

impl RestResponse {
    /// A 200 response with a JSON body.
    pub fn ok(body: &str) -> (r: RestResponse)
        ensures
            r@ == ok_view(body@),
    {
        RestResponse { status: 200, body: String::from_str(body), headers: json_header_list() }
    }

    /// An error response whose JSON body carries the message and status.
    pub fn error(status: u16, message: &str) -> (r: RestResponse)
        ensures
            r@ == error_view(status, message@),
    {
        let quoted = json_quote(message);
        let code = decimal(status as u64);
        let mut body = join3("{\"error\":", quoted.as_str(), ",\"status\":");
        body.append(code.as_str());
        body.append("}");
        RestResponse { status, body, headers: json_header_list() }
    }
}

/// The rate-limit class of an API path, by prefix.
pub open spec fn spec_rate_class(path: Seq<char>) -> Option<RateLimitClass> {
    if has_prefix(path, "/api/v1/donor"@) {
        Some(RateLimitClass::DonorHeartbeat)
    } else if has_prefix(path, "/api/v1/job"@) {
        Some(RateLimitClass::JobSubmit)
    } else if has_prefix(path, "/api/v1/cluster"@) {
        Some(RateLimitClass::ClusterStatus)
    } else if has_prefix(path, "/api/v1/governance"@) {
        Some(RateLimitClass::Governance)
    } else if has_prefix(path, "/api/v1/admin"@) {
        Some(RateLimitClass::AdminAction)
    } else if has_prefix(path, "/api/v1/mesh"@) {
        Some(RateLimitClass::ClusterStatus)
    } else {
        None
    }
}

proof fn lemma_prefix_char(s: Seq<char>, p: Seq<char>, i: int)
    requires
        has_prefix(s, p),
        0 <= i < p.len(),
    ensures
        s[i] == p[i],
{
    assert(s.subrange(0, p.len() as int)[i] == s[i]);
}

/// Requests are throttled by the area of the API their path names: donor
/// paths in the heartbeat class, job paths in the submission class,
/// cluster and mesh paths in the status class, governance paths in the
/// governance class (5 a minute) and admin paths in the admin class (1 a
/// minute); any other path is not throttled.
pub proof fn law_rate_class_by_prefix(path: Seq<char>)
    ensures
        has_prefix(path, "/api/v1/donor"@) ==> spec_rate_class(path) == Some(RateLimitClass::DonorHeartbeat),
        has_prefix(path, "/api/v1/job"@) ==> spec_rate_class(path) == Some(RateLimitClass::JobSubmit),
        has_prefix(path, "/api/v1/cluster"@) ==> spec_rate_class(path) == Some(RateLimitClass::ClusterStatus),
        has_prefix(path, "/api/v1/governance"@) ==> {
            &&& spec_rate_class(path) == Some(RateLimitClass::Governance)
            &&& spec_per_minute(RateLimitClass::Governance) == 5
        },
        has_prefix(path, "/api/v1/admin"@) ==> {
            &&& spec_rate_class(path) == Some(RateLimitClass::AdminAction)
            &&& spec_per_minute(RateLimitClass::AdminAction) == 1
        },
        has_prefix(path, "/api/v1/mesh"@) ==> spec_rate_class(path) == Some(RateLimitClass::ClusterStatus),
        spec_rate_class(path) is Some ==> {
            ||| has_prefix(path, "/api/v1/donor"@)
            ||| has_prefix(path, "/api/v1/job"@)
            ||| has_prefix(path, "/api/v1/cluster"@)
            ||| has_prefix(path, "/api/v1/governance"@)
            ||| has_prefix(path, "/api/v1/admin"@)
            ||| has_prefix(path, "/api/v1/mesh"@)
        },
{
    reveal_strlit("/api/v1/donor");
    reveal_strlit("/api/v1/job");
    reveal_strlit("/api/v1/cluster");
    reveal_strlit("/api/v1/governance");
    reveal_strlit("/api/v1/admin");
    reveal_strlit("/api/v1/mesh");
    if has_prefix(path, "/api/v1/donor"@) {
        lemma_prefix_char(path, "/api/v1/donor"@, 8);
    }
    if has_prefix(path, "/api/v1/job"@) {
        lemma_prefix_char(path, "/api/v1/job"@, 8);
    }
    if has_prefix(path, "/api/v1/cluster"@) {
        lemma_prefix_char(path, "/api/v1/cluster"@, 8);
    }
    if has_prefix(path, "/api/v1/governance"@) {
        lemma_prefix_char(path, "/api/v1/governance"@, 8);
    }
    if has_prefix(path, "/api/v1/admin"@) {
        lemma_prefix_char(path, "/api/v1/admin"@, 8);
    }
    if has_prefix(path, "/api/v1/mesh"@) {
        lemma_prefix_char(path, "/api/v1/mesh"@, 8);
    }
}

/// Classify the rate-limit bucket of an API path.
pub fn rate_limit_class_for_path(path: &str) -> (r: Option<RateLimitClass>)
    ensures
        r == spec_rate_class(path@),
{
    if starts_with(path, "/api/v1/donor") {
        Some(RateLimitClass::DonorHeartbeat)
    } else if starts_with(path, "/api/v1/job") {
        Some(RateLimitClass::JobSubmit)
    } else if starts_with(path, "/api/v1/cluster") {
        Some(RateLimitClass::ClusterStatus)
    } else if starts_with(path, "/api/v1/governance") {
        Some(RateLimitClass::Governance)
    } else if starts_with(path, "/api/v1/admin") {
        Some(RateLimitClass::AdminAction)
    } else if starts_with(path, "/api/v1/mesh") {
        Some(RateLimitClass::ClusterStatus)
    } else {
        None
    }
}

/// Method and path are exactly the given pair.
pub open spec fn is_call(method: Seq<char>, path: Seq<char>, m: Seq<char>, p: Seq<char>) -> bool {
    method == m && path == p
}

/// "method not allowed".
pub open spec fn not_allowed() -> ResponseView {
    error_view(405, "method not allowed"@)
}

/// Responses of the donor service.
pub open spec fn donor_view(method: Seq<char>, path: Seq<char>) -> ResponseView {
    if is_call(method, path, "GET"@, "/api/v1/donor/status"@) {
        ok_view("{\"credit_balance\":0,\"state\":\"idle\",\"trust_score\":0.5,\"uptime_secs\":0}"@)
    } else if is_call(method, path, "POST"@, "/api/v1/donor/enroll"@) {
        ok_view("{\"enrolled\":true,\"peer_id\":\"12D3KooW...\"}"@)
    } else {
        not_allowed()
    }
}

/// Responses of the job service.
pub open spec fn job_view(method: Seq<char>, path: Seq<char>, body: Seq<char>) -> ResponseView {
    if is_call(method, path, "POST"@, "/api/v1/job/submit"@) {
        if body.len() == 0 {
            error_view(400, "missing job manifest"@)
        } else {
            ok_view("{\"job_id\":\"job-00000000\",\"state\":\"queued\"}"@)
        }
    } else if is_call(method, path, "GET"@, "/api/v1/job/status"@) {
        ok_view("{\"job_id\":null,\"progress\":0,\"state\":\"unknown\"}"@)
    } else if is_call(method, path, "GET"@, "/api/v1/job/list"@) {
        ok_view("{\"jobs\":[]}"@)
    } else {
        not_allowed()
    }
}

/// Responses of the cluster service.
pub open spec fn cluster_view(method: Seq<char>, path: Seq<char>) -> ResponseView {
    if is_call(method, path, "GET"@, "/api/v1/cluster/status"@) {
        ok_view("{\"coordinator\":null,\"jobs_queued\":0,\"jobs_running\":0,\"nodes_online\":0}"@)
    } else if is_call(method, path, "GET"@, "/api/v1/cluster/nodes"@) {
        ok_view("{\"nodes\":[]}"@)
    } else {
        not_allowed()
    }
}

/// Responses of the governance service.
pub open spec fn governance_view(method: Seq<char>, path: Seq<char>, body: Seq<char>) -> ResponseView {
    if is_call(method, path, "GET"@, "/api/v1/governance/proposals"@) {
        ok_view("{\"proposals\":[]}"@)
    } else if is_call(method, path, "POST"@, "/api/v1/governance/vote"@) {
        if body.len() == 0 {
            error_view(400, "missing vote payload"@)
        } else {
            ok_view("{\"accepted\":true}"@)
        }
    } else {
        not_allowed()
    }
}

/// Responses of the admin service.
pub open spec fn admin_view(method: Seq<char>, path: Seq<char>) -> ResponseView {
    if is_call(method, path, "GET"@, "/api/v1/admin/health"@) {
        ok_view("{\"healthy\":true}"@)
    } else if is_call(method, path, "POST"@, "/api/v1/admin/freeze"@) {
        ok_view("{\"frozen\":true}"@)
    } else {
        not_allowed()
    }
}

/// Responses of the mesh service.
pub open spec fn mesh_view(method: Seq<char>, path: Seq<char>, body: Seq<char>) -> ResponseView {
    if is_call(method, path, "GET"@, "/api/v1/mesh/status"@) {
        ok_view("{\"active_sessions\":0,\"model_shards\":0}"@)
    } else if is_call(method, path, "POST"@, "/api/v1/mesh/inference"@) {
        if body.len() == 0 {
            error_view(400, "missing inference request"@)
        } else {
            ok_view("{\"request_id\":\"req-00000000\",\"status\":\"queued\"}"@)
        }
    } else {
        not_allowed()
    }
}

/// The response of routing a request by path prefix; unknown paths are 404.
pub open spec fn spec_route(method: Seq<char>, path: Seq<char>, body: Seq<char>) -> ResponseView {
    if has_prefix(path, "/api/v1/donor"@) {
        donor_view(method, path)
    } else if has_prefix(path, "/api/v1/job"@) {
        job_view(method, path, body)
    } else if has_prefix(path, "/api/v1/cluster"@) {
        cluster_view(method, path)
    } else if has_prefix(path, "/api/v1/governance"@) {
        governance_view(method, path, body)
    } else if has_prefix(path, "/api/v1/admin"@) {
        admin_view(method, path)
    } else if has_prefix(path, "/api/v1/mesh"@) {
        mesh_view(method, path, body)
    } else {
        error_view(404, "not found"@)
    }
}

/// The response to a throttled request: 429, with a one-minute retry hint.
pub open spec fn throttled_view() -> ResponseView {
    (
        spec_http_status(ErrorCode::RateLimited),
        "{\"error\":\"rate limited\",\"status\":429}"@,
        seq![("content-type"@, "application/json"@), ("retry-after"@, "60"@)],
    )
}

/// The gateway.
pub struct RestGateway {
    /// Listening port.
    pub port: u16,
    /// Per-caller rate limits.
    pub rate_limiter: RateLimiter,
}

fn call(method: &str, path: &str, m: &str, p: &str) -> (r: bool)
    ensures
        r == is_call(method@, path@, m@, p@),
{
    str_eq(method, m) && str_eq(path, p)
}

impl RestGateway {
    /// A gateway on `port` with empty rate limits.
    pub fn new(port: u16) -> (r: RestGateway)
        ensures
            r.port == port,
            r.rate_limiter@ == Map::<BucketKey, (u64, u64, u64)>::empty(),
    {
        RestGateway { port, rate_limiter: RateLimiter::new() }
    }

    /// Handle a request: requests to a rate-limited path are counted against
    /// the anonymous caller's bucket of its class and answered 429 when the
    /// bucket is empty; the others are routed.
    pub fn handle_request(&mut self, method: &str, path: &str, body: &str) -> (r: RestResponse)
        ensures
            final(self).port == old(self).port,
            spec_rate_class(path@) is None ==> {
                &&& r@ == spec_route(method@, path@, body@)
                &&& final(self).rate_limiter@ == old(self).rate_limiter@
            },
            spec_rate_class(path@) matches Some(c) ==> exists|e: u64|
                {
                    let step = #[trigger] after_consume(bucket_before(old(self).rate_limiter@, ("anonymous"@, c)), e);
                    &&& final(self).rate_limiter@ == old(self).rate_limiter@.insert(("anonymous"@, c), step.0)
                    &&& r@ == (if step.1 is Ok { spec_route(method@, path@, body@) } else { throttled_view() })
                },
    {
        if let Some(class) = rate_limit_class_for_path(path) {
            if let Err(e) = self.rate_limiter.check("anonymous", class) {
                let mut headers: Vec<(String, String)> = Vec::new();
                headers.push((String::from_str("content-type"), String::from_str("application/json")));
                headers.push((String::from_str("retry-after"), String::from_str("60")));
                assert(header_views(headers@) =~= throttled_view().2);
                let code = match e.code() {
                    Some(c) => c,
                    None => ErrorCode::RateLimited,
                };
                return RestResponse {
                    status: code.http_status(),
                    body: String::from_str("{\"error\":\"rate limited\",\"status\":429}"),
                    headers,
                };
            }
        }
        Self::route(method, path, body)
    }

    /// Dispatch by path prefix to the service handlers.
    fn route(method: &str, path: &str, body: &str) -> (r: RestResponse)
        ensures
            r@ == spec_route(method@, path@, body@),
    {
        if starts_with(path, "/api/v1/donor") {
            return Self::handle_donor(method, path, body);
        }
        if starts_with(path, "/api/v1/job") {
            return Self::handle_job(method, path, body);
        }
        if starts_with(path, "/api/v1/cluster") {
            return Self::handle_cluster(method, path, body);
        }
        if starts_with(path, "/api/v1/governance") {
            return Self::handle_governance(method, path, body);
        }
        if starts_with(path, "/api/v1/admin") {
            return Self::handle_admin(method, path, body);
        }
        if starts_with(path, "/api/v1/mesh") {
            return Self::handle_mesh(method, path, body);
        }
        RestResponse::error(404, "not found")
    }

    fn handle_donor(method: &str, path: &str, body: &str) -> (r: RestResponse)
        ensures
            r@ == donor_view(method@, path@),
    {
        if call(method, path, "GET", "/api/v1/donor/status") {
            RestResponse::ok("{\"credit_balance\":0,\"state\":\"idle\",\"trust_score\":0.5,\"uptime_secs\":0}")
        } else if call(method, path, "POST", "/api/v1/donor/enroll") {
            RestResponse::ok("{\"enrolled\":true,\"peer_id\":\"12D3KooW...\"}")
        } else {
            RestResponse::error(405, "method not allowed")
        }
    }

    fn handle_job(method: &str, path: &str, body: &str) -> (r: RestResponse)
        ensures
            r@ == job_view(method@, path@, body@),
    {
        if call(method, path, "POST", "/api/v1/job/submit") {
            if body.unicode_len() == 0 {
                return RestResponse::error(400, "missing job manifest");
            }
            RestResponse::ok("{\"job_id\":\"job-00000000\",\"state\":\"queued\"}")
        } else if call(method, path, "GET", "/api/v1/job/status") {
            RestResponse::ok("{\"job_id\":null,\"progress\":0,\"state\":\"unknown\"}")
        } else if call(method, path, "GET", "/api/v1/job/list") {
            RestResponse::ok("{\"jobs\":[]}")
        } else {
            RestResponse::error(405, "method not allowed")
        }
    }

    fn handle_cluster(method: &str, path: &str, body: &str) -> (r: RestResponse)
        ensures
            r@ == cluster_view(method@, path@),
    {
        if call(method, path, "GET", "/api/v1/cluster/status") {
            RestResponse::ok("{\"coordinator\":null,\"jobs_queued\":0,\"jobs_running\":0,\"nodes_online\":0}")
        } else if call(method, path, "GET", "/api/v1/cluster/nodes") {
            RestResponse::ok("{\"nodes\":[]}")
        } else {
            RestResponse::error(405, "method not allowed")
        }
    }

    fn handle_governance(method: &str, path: &str, body: &str) -> (r: RestResponse)
        ensures
            r@ == governance_view(method@, path@, body@),
    {
        if call(method, path, "GET", "/api/v1/governance/proposals") {
            RestResponse::ok("{\"proposals\":[]}")
        } else if call(method, path, "POST", "/api/v1/governance/vote") {
            if body.unicode_len() == 0 {
                return RestResponse::error(400, "missing vote payload");
            }
            RestResponse::ok("{\"accepted\":true}")
        } else {
            RestResponse::error(405, "method not allowed")
        }
    }

    fn handle_admin(method: &str, path: &str, body: &str) -> (r: RestResponse)
        ensures
            r@ == admin_view(method@, path@),
    {
        if call(method, path, "GET", "/api/v1/admin/health") {
            RestResponse::ok("{\"healthy\":true}")
        } else if call(method, path, "POST", "/api/v1/admin/freeze") {
            RestResponse::ok("{\"frozen\":true}")
        } else {
            RestResponse::error(405, "method not allowed")
        }
    }

    fn handle_mesh(method: &str, path: &str, body: &str) -> (r: RestResponse)
        ensures
            r@ == mesh_view(method@, path@, body@),
    {
        if call(method, path, "GET", "/api/v1/mesh/status") {
            RestResponse::ok("{\"active_sessions\":0,\"model_shards\":0}")
        } else if call(method, path, "POST", "/api/v1/mesh/inference") {
            if body.unicode_len() == 0 {
                return RestResponse::error(400, "missing inference request");
            }
            RestResponse::ok("{\"request_id\":\"req-00000000\",\"status\":\"queued\"}")
        } else {
            RestResponse::error(405, "method not allowed")
        }
    }
}

// ─── Bearer tokens ────────────────────────────────────────────────────────

/// Index of the first `c` in `s` at or after `from`.
pub open spec fn find_char(s: Seq<char>, c: char, from: int) -> Option<int>
    decreases s.len() - from,
{
    if from < 0 || from >= s.len() {
        None
    } else if s[from] == c {
        Some(from)
    } else {
        find_char(s, c, from + 1)
    }
}

/// Outcome of checking a token: base64 of UTF-8 text
/// `<peer_id>:<timestamp>:<signature hex>` with a 64-byte signature gives
/// the peer ID; each defect gives its message.
pub open spec fn spec_auth_token(token: Seq<char>) -> Result<Seq<char>, Seq<char>> {
    match base64_decoded_of(token) {
        None => Err("invalid base64 token encoding"@),
        Some(bytes) => if !vstd::utf8::valid_utf8(bytes) {
            Err("invalid UTF-8 in token"@)
        } else {
            let s = vstd::utf8::decode_utf8(bytes);
            match find_char(s, ':', 0) {
                None => Err("token must contain peer_id:timestamp:signature"@),
                Some(i) => match find_char(s, ':', i + 1) {
                    None => Err("token must contain peer_id:timestamp:signature"@),
                    Some(j) => match hex_decoded(s.skip(j + 1)) {
                        None => Err("invalid hex signature in token"@),
                        Some(sig) => if sig.len() != 64 {
                            Err("signature must be 64 bytes"@)
                        } else {
                            Ok(s.take(i))
                        },
                    },
                },
            }
        },
    }
}

fn find_colon(s: &str, from: usize) -> (r: Option<usize>)
    requires
        from <= s@.len(),
    ensures
        r matches Some(i) ==> find_char(s@, ':', from as int) == Some(i as int) && i < s@.len(),
        r is None ==> find_char(s@, ':', from as int) is None,
    decreases s@.len() - from,
{
    let n = s.unicode_len();
    if from >= n {
        return None;
    }
    if s.get_char(from) == ':' {
        return Some(from);
    }
    find_colon(s, from + 1)
}

fn unauthorized(msg: &str) -> (r: WcError)
    ensures
        r.kind == ErrorCode::Unauthorized,
        r.message@ == msg@,
{
    WcError::with_text(ErrorCode::Unauthorized, msg)
}

/// Check the structure of a bearer token and return its peer ID. The
/// signature is checked for form (hex, 64 bytes) only.
pub fn verify_auth_token(token: &str) -> (r: Result<String, WcError>)
    ensures
        r matches Ok(p) ==> spec_auth_token(token@) == Ok::<Seq<char>, Seq<char>>(p@),
        r matches Err(e) ==> e.kind == ErrorCode::Unauthorized && spec_auth_token(token@) == Err::<
            Seq<char>,
            Seq<char>,
        >(e.message@),
{
    let decoded = match base64_decode(token) {
        Some(d) => d,
        None => return Err(unauthorized("invalid base64 token encoding")),
    };
    let text = match utf8_decode(decoded) {
        Some(t) => t,
        None => return Err(unauthorized("invalid UTF-8 in token")),
    };
    let s = text.as_str();
    let n = s.unicode_len();
    let i = match find_colon(s, 0) {
        Some(i) => i,
        None => return Err(unauthorized("token must contain peer_id:timestamp:signature")),
    };
    let j = match find_colon(s, i + 1) {
        Some(j) => j,
        None => return Err(unauthorized("token must contain peer_id:timestamp:signature")),
    };
    let sig_hex = s.substring_char(j + 1, n);
    assert(sig_hex@ =~= s@.skip(j + 1));
    let sig = match hex_decode(sig_hex) {
        Some(b) => b,
        None => return Err(unauthorized("invalid hex signature in token")),
    };
    if sig.len() != 64 {
        return Err(unauthorized("signature must be 64 bytes"));
    }
    let peer = s.substring_char(0, i);
    assert(peer@ =~= s@.take(i as int));
    Ok(String::from_str(peer))
}

} // verus!
