//! Configuration of the high-level client, and the registration it sends.

use vstd::prelude::*;

use crate::gateway_api::{AuthInfo, InstanceInfo, RegistrationRequest};
use crate::text::copy_strings;

verus! {

/// Configuration used to connect a Basilisk client.
#[derive(Debug, Clone, PartialEq, Eq)]
pub struct BasiliskClientConfig {
    /// Base URL for gateway registry APIs.
    pub gateway_base_url: String,
    /// Service bus host.
    pub bus_host: String,
    /// Service bus TCP port.
    pub bus_port: u16,
    /// Logical service identifier.
    pub service_id: String,
    /// Service fingerprint/version marker.
    pub fingerprint: String,
    /// Path prefixes advertised to the gateway.
    pub path_prefixes: Vec<String>,
    /// Upstream URL scheme.
    pub scheme: String,
    /// Upstream host.
    pub host: String,
    /// Upstream port.
    pub port: u16,
    /// Load-balancing weight for this instance.
    pub weight: i32,
    /// Registration auth type (for example `token`).
    pub registration_auth_type: String,
    /// Registration token/secret for gateway auth.
    pub registration_token: String,
}

impl BasiliskClientConfig {
    /// The registration that connecting sends to the gateway: the service and
    /// upstream described by the configuration, with an empty instance id so
    /// that the registry generates one.
    pub fn registration_request(&self) -> (r: RegistrationRequest)
        ensures
            r.service_id@ == self.service_id@,
            r.fingerprint@ == self.fingerprint@,
            r.path_prefixes@ == self.path_prefixes@,
            r.instance.instance_id@ == Seq::<char>::empty(),
            r.instance.scheme@ == self.scheme@,
            r.instance.host@ == self.host@,
            r.instance.port == self.port,
            r.instance.weight == self.weight,
            r.auth.auth_type@ == self.registration_auth_type@,
            r.auth.token@ == self.registration_token@,
    {
        RegistrationRequest {
            service_id: self.service_id.clone(),
            fingerprint: self.fingerprint.clone(),
            path_prefixes: copy_strings(&self.path_prefixes),
            instance: InstanceInfo {
                instance_id: String::new(),
                scheme: self.scheme.clone(),
                host: self.host.clone(),
                port: self.port,
                weight: self.weight,
            },
            auth: AuthInfo {
                auth_type: self.registration_auth_type.clone(),
                token: self.registration_token.clone(),
            },
        }
    }
}

} // verus!
