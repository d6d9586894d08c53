use vstd::prelude::*;

verus! {

/// A JSON value from serde_json. The library never looks inside one: such
/// values are carried through verbatim from a fetched page to the caller and
/// to the cache.
#[verifier::external_type_specification]
#[verifier::external_body]
pub struct ExJsonValue(serde_json::Value);

/// Client credentials for one tenant of the inventory service.
#[derive(Debug)]
pub struct Credentials {
    pub client_id: String,
    pub client_secret: String,
    pub tenant_id: String,
    pub region: String,
}

/// A managed device record. Only `id` is interpreted (records are identified
/// by it); every other field is passed through untouched.
#[derive(Debug)]
pub struct Endpoint {
    pub id: String,
    pub hostname: Option<String>,
    pub os: Option<serde_json::Value>,
    pub endpoint_type: Option<String>,
    pub online: Option<bool>,
    pub health: Option<serde_json::Value>,
    pub group: Option<serde_json::Value>,
    pub ip_addresses: Option<Vec<String>>,
    pub ipv4_addresses: Option<Vec<String>>,
    pub ipv6_addresses: Option<Vec<String>>,
    pub last_seen: Option<String>,
}

impl Endpoint {
    /// A record that carries only its identifier.
    pub fn with_id(id: String) -> (r: Endpoint)
        ensures
            r.id == id,
            r.hostname is None,
            r.os is None,
            r.endpoint_type is None,
            r.online is None,
            r.health is None,
            r.group is None,
            r.ip_addresses is None,
            r.ipv4_addresses is None,
            r.ipv6_addresses is None,
            r.last_seen is None,
    {
        Endpoint {
            id,
            hostname: None,
            os: None,
            endpoint_type: None,
            online: None,
            health: None,
            group: None,
            ip_addresses: None,
            ipv4_addresses: None,
            ipv6_addresses: None,
            last_seen: None,
        }
    }
}

} // verus!
