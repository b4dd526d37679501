//! The gateway registry API: registration payloads, the endpoint URLs, and
//! which HTTP status counts as success. Sending the requests is the caller's job.

use vstd::prelude::*;

use crate::text::{copy_strings, joined};

verus! {

broadcast use vstd::string::group_string_axioms;

#[verifier::external_type_specification]
#[verifier::external_body]
pub struct ExHttpClient(reqwest::Client);

/// Path of the registration endpoint, after the base URL.
pub const REGISTER_PATH: &'static str = "/registry/register";
/// Path of the service collection, after the base URL.
pub const SERVICES_PATH: &'static str = "/registry/services/";
/// Path segment between a service id and an instance id.
pub const INSTANCES_SEGMENT: &'static str = "/instances/";
/// The only HTTP status that the registry answers a successful call with.
pub const HTTP_OK: u16 = 200;

/// `s` without the `/` characters at its end.
pub open spec fn trim_trailing_slashes(s: Seq<char>) -> Seq<char>
    decreases s.len(),
{
    if s.len() > 0 && s.last() == '/' {
        trim_trailing_slashes(s.drop_last())
    } else {
        s
    }
}

/// A fresh HTTP client, from `reqwest::Client::new`, which states nothing about
/// the value. That function panics only when a TLS backend cannot be
/// initialized or the DNS resolver cannot load the system configuration; this
/// crate builds reqwest with no TLS backend and with its default resolver,
/// which loads no configuration when a client is built.
#[verifier::external_body]
fn new_http_client() -> reqwest::Client {
    reqwest::Client::new()
}

/// A handle to the same HTTP client, from `reqwest::Client::clone`, which
/// shares the connection pool of `client`. Nothing is stated of the value:
/// Verus sees nothing inside a client.
#[verifier::external_body]
fn share_http_client(client: &reqwest::Client) -> reqwest::Client {
    client.clone()
}

/// HTTP client for Basilisk gateway registry APIs.
pub struct GatewayApiClient {
    base_url: String,
    http: reqwest::Client,
}

impl Clone for GatewayApiClient {
    fn clone(&self) -> (copy: Self)
        ensures
            copy.base() == self.base(),
    {
        GatewayApiClient { base_url: self.base_url.clone(), http: share_http_client(&self.http) }
    }
}

/// `s` without its trailing `/` characters, found in one pass over `s`.
fn trim_end_slashes(s: &str) -> (trimmed: String)
    ensures
        trimmed@ == trim_trailing_slashes(s@),
{
    let n = s.unicode_len();
    let mut k: usize = 0;
    let mut end: usize = 0;
    assert(s@.subrange(0, 0) =~= Seq::<char>::empty());
    for c in it: s.chars()
        invariant
            n == s@.len(),
            it.seq() == s@,
            k == it.index(),
            end <= k <= n,
            trim_trailing_slashes(s@.subrange(0, k as int)) == s@.subrange(0, end as int),
    {
        let ghost seen = s@.subrange(0, k as int);
        assert(s@.subrange(0, k + 1) == seen.push(c));
        assert(seen.push(c).drop_last() =~= seen);
        if c != '/' {
            end = k + 1;
        }
        k += 1;
    }
    assert(s@.subrange(0, n as int) =~= s@);
    String::from_str(s.substring_char(0, end))
}

impl GatewayApiClient {
    /// The base URL that endpoint paths are appended to.
    pub closed spec fn base(&self) -> Seq<char> {
        self.base_url@
    }

    /// The HTTP client this gateway client holds and makes its calls with.
    pub closed spec fn held_http_client(&self) -> reqwest::Client {
        self.http
    }

    /// Creates a new gateway API client for the gateway at `base_url`, whose
    /// trailing `/` characters are dropped.
    pub fn new(base_url: String) -> (client: GatewayApiClient)
        ensures
            client.base() == trim_trailing_slashes(base_url@),
    {
        GatewayApiClient { base_url: trim_end_slashes(base_url.as_str()), http: new_http_client() }
    }

    /// The base URL, without trailing `/`.
    pub fn base_url(&self) -> (url: &str)
        ensures
            url@ == self.base(),
    {
        self.base_url.as_str()
    }

    /// The HTTP client that calls are made with.
    pub fn http(&self) -> (client: &reqwest::Client)
        ensures
            *client == self.held_http_client(),
    {
        &self.http
    }

    /// The URL to which registrations are posted.
    pub fn register_url(&self) -> (url: String)
        ensures
            url@ == self.base() + REGISTER_PATH@,
    {
        joined(self.base_url.as_str(), REGISTER_PATH)
    }

    /// The URL that deregisters instance `instance_id` of service `service_id`.
    pub fn deregister_url(&self, service_id: &str, instance_id: &str) -> (url: String)
        ensures
            url@ == self.base() + SERVICES_PATH@ + service_id@ + INSTANCES_SEGMENT@ + instance_id@,
    {
        let mut url = joined(self.base_url.as_str(), SERVICES_PATH);
        url.append(service_id);
        url.append(INSTANCES_SEGMENT);
        url.append(instance_id);
        url
    }
}

/// Whether a registry call answered with `status` succeeded.
pub fn registry_call_succeeded(status: u16) -> (ok: bool)
    ensures
        ok == (status == HTTP_OK),
{
    status == HTTP_OK
}

/// Request body for gateway instance registration.
#[derive(Debug, Clone, PartialEq, Eq)]
pub struct RegistrationRequest {
    /// Logical service identifier.
    pub service_id: String,
    /// Service fingerprint/version marker.
    pub fingerprint: String,
    /// Path prefixes exposed by this instance.
    pub path_prefixes: Vec<String>,
    /// Network/location metadata for the running instance.
    pub instance: InstanceInfo,
    /// Registration authentication metadata.
    pub auth: AuthInfo,
}

/// Instance metadata sent to the gateway registry.
#[derive(Debug, Clone, PartialEq, Eq)]
pub struct InstanceInfo {
    /// Service instance id. Empty string allows server-side generation.
    pub instance_id: String,
    /// Upstream URL scheme.
    pub scheme: String,
    /// Upstream host.
    pub host: String,
    /// Upstream port.
    pub port: u16,
    /// Load-balancing weight.
    pub weight: i32,
}

/// Registration auth metadata.
#[derive(Debug, Clone, PartialEq, Eq)]
pub struct AuthInfo {
    /// Auth mechanism type (for example `token`).
    pub auth_type: String,
    /// Shared secret/token value.
    pub token: String,
}

/// Successful response payload for instance registration.
#[derive(Debug, Clone, PartialEq, Eq)]
pub struct RegistrationResponse {
    /// Human-readable status message.
    pub message: String,
    /// Registered service id.
    pub service_id: String,
    /// Registered instance id.
    pub instance_id: String,
    /// Issued token for service-bus authentication.
    pub token: String,
}

/// `a` and `b` register the same thing except, perhaps, for the instance id.
pub open spec fn same_registration_but_instance_id(
    a: RegistrationRequest,
    b: RegistrationRequest,
) -> bool {
    &&& a.service_id@ == b.service_id@
    &&& a.fingerprint@ == b.fingerprint@
    &&& a.path_prefixes@.len() == b.path_prefixes@.len()
    &&& forall|i: int|
        0 <= i < a.path_prefixes@.len() ==> #[trigger] a.path_prefixes@[i]@
            == b.path_prefixes@[i]@
    &&& a.instance.scheme@ == b.instance.scheme@
    &&& a.instance.host@ == b.instance.host@
    &&& a.instance.port == b.instance.port
    &&& a.instance.weight == b.instance.weight
    &&& a.auth.auth_type@ == b.auth.auth_type@
    &&& a.auth.token@ == b.auth.token@
}

/// The request that `register_instance_auto` sends: `request` with its
/// instance id cleared, so that the registry generates one.
pub fn auto_registration_request(request: &RegistrationRequest) -> (auto: RegistrationRequest)
    ensures
        same_registration_but_instance_id(auto, *request),
        auto.instance.instance_id@ == Seq::<char>::empty(),
        auto.service_id@ == request.service_id@,
        auto.fingerprint@ == request.fingerprint@,
        auto.path_prefixes@.len() == request.path_prefixes@.len(),
        forall|i: int|
            0 <= i < request.path_prefixes@.len() ==> #[trigger] auto.path_prefixes@[i]
                == request.path_prefixes@[i],
        auto.instance.scheme@ == request.instance.scheme@,
        auto.instance.host@ == request.instance.host@,
        auto.instance.port == request.instance.port,
        auto.instance.weight == request.instance.weight,
        auto.auth.auth_type@ == request.auth.auth_type@,
        auto.auth.token@ == request.auth.token@,
{
    RegistrationRequest {
        service_id: request.service_id.clone(),
        fingerprint: request.fingerprint.clone(),
        path_prefixes: copy_strings(&request.path_prefixes),
        instance: InstanceInfo {
            instance_id: String::new(),
            scheme: request.instance.scheme.clone(),
            host: request.instance.host.clone(),
            port: request.instance.port,
            weight: request.instance.weight,
        },
        auth: AuthInfo {
            auth_type: request.auth.auth_type.clone(),
            token: request.auth.token.clone(),
        },
    }
}

/// Two registrations that agree on everything but the instance id advertise
/// exactly the same path prefixes: as many, and the same one at every index.
/// (So the registration `register_instance_auto` sends carries every path
/// prefix of the request it was given.)
pub proof fn auto_registration_keeps_every_path_prefix(
    auto: RegistrationRequest,
    request: RegistrationRequest,
)
    requires
        same_registration_but_instance_id(auto, request),
    ensures
        auto.path_prefixes@.len() == request.path_prefixes@.len(),
        forall|i: int|
            0 <= i < request.path_prefixes@.len() ==> #[trigger] auto.path_prefixes@[i]@
                == request.path_prefixes@[i]@,
        auto.service_id@ == request.service_id@,
        auto.fingerprint@ == request.fingerprint@,
        auto.instance.scheme@ == request.instance.scheme@,
        auto.instance.host@ == request.instance.host@,
        auto.instance.port == request.instance.port,
        auto.instance.weight == request.instance.weight,
        auto.auth.auth_type@ == request.auth.auth_type@,
        auto.auth.token@ == request.auth.token@,
{
}

/// Clearing the instance id twice is clearing it once: the second pass
/// changes nothing that the first pass kept.
pub proof fn auto_registration_is_idempotent(
    request: RegistrationRequest,
    once: RegistrationRequest,
    twice: RegistrationRequest,
)
    requires
        same_registration_but_instance_id(once, request),
        once.instance.instance_id@ == Seq::<char>::empty(),
        same_registration_but_instance_id(twice, once),
        twice.instance.instance_id@ == Seq::<char>::empty(),
    ensures
        same_registration_but_instance_id(twice, request),
        twice.instance.instance_id@ == once.instance.instance_id@,
{
}

/// The trimmed base URL ends in no `/`, and the given URL is the trimmed one
/// followed by nothing but `/` characters.
pub proof fn trimmed_base_url_shape(s: Seq<char>)
    ensures
        trim_trailing_slashes(s).len() == 0 || trim_trailing_slashes(s).last() != '/',
        trim_trailing_slashes(s).len() <= s.len(),
        s.subrange(0, trim_trailing_slashes(s).len() as int) == trim_trailing_slashes(s),
        forall|i: int|
            trim_trailing_slashes(s).len() <= i < s.len() ==> #[trigger] s[i] == '/',
    decreases s.len(),
{
    if s.len() > 0 && s.last() == '/' {
        let init = s.drop_last();
        trimmed_base_url_shape(init);
        let t = trim_trailing_slashes(init);
        assert(s.subrange(0, t.len() as int) =~= init.subrange(0, t.len() as int));
        assert forall|i: int| t.len() <= i < s.len() implies #[trigger] s[i] == '/' by {
            if i < init.len() {
                assert(s[i] == init[i]);
            }
        }
    } else {
        assert(s.subrange(0, s.len() as int) =~= s);
    }
}

/// Trimming a trimmed base URL changes nothing.
pub proof fn trimming_base_url_is_idempotent(s: Seq<char>)
    ensures
        trim_trailing_slashes(trim_trailing_slashes(s)) == trim_trailing_slashes(s),
{
    trimmed_base_url_shape(s);
}

} // verus!
