use vstd::prelude::*;

use crate::port::{append_decimal, decimal};

verus! {

/// The realm that the page signs in to.
pub open spec fn realm_name() -> Seq<char> {
    "myrealm"@
}

/// The client that the page signs in as.
pub open spec fn client_name() -> Seq<char> {
    "myclient"@
}

/// The address of the identity provider listening on `port` of this host.
pub open spec fn server_url(port: u16) -> Seq<char> {
    "http://localhost:"@ + decimal(port as nat)
}

/// The issuer that ID tokens of the realm carry.
pub open spec fn realm_issuer(server: Seq<char>) -> Seq<char> {
    server + "/realms/"@ + realm_name()
}

/// The settings with which the page starts its authentication.
#[derive(Debug, Clone, PartialEq, Eq)]
pub struct AuthSettings {
    pub keycloak_server_url: String,
    pub realm: String,
    pub client_id: String,
    /// The scopes that sign-in asks for.
    pub scope: Vec<String>,
    /// The audiences that an ID token must name.
    pub expected_audiences: Vec<String>,
    /// The issuers that an ID token may come from.
    pub expected_issuers: Vec<String>,
    /// Whether authentication waits until the page has been hydrated.
    pub delay_during_hydration: bool,
}

/// The address of the identity provider listening on `port` of this host.
pub fn keycloak_server_url(port: u16) -> (r: String)
    ensures
        r@ == server_url(port),
{
    let mut r = String::from_str("http://localhost:");
    append_decimal(&mut r, port);
    proof { reveal_strlit("http://localhost:"); }
    r
}

/// The settings for an identity provider on `port` of this host: the page's realm and
/// client, no scopes, no wait for hydration, ID tokens addressed to that client
/// and issued by that realm.
pub fn auth_settings(port: u16) -> (r: AuthSettings)
    ensures
        r.keycloak_server_url@ == server_url(port),
        r.realm@ == realm_name(),
        r.client_id@ == client_name(),
        r.scope@.len() == 0,
        !r.delay_during_hydration,
        r.expected_audiences@.map_values(|s: String| s@) == seq![client_name()],
        r.expected_issuers@.map_values(|s: String| s@) == seq![realm_issuer(server_url(port))],
{
    let url = keycloak_server_url(port);
    let mut issuer = url.clone();
    issuer.append("/realms/");
    issuer.append("myrealm");
    let mut audiences: Vec<String> = Vec::new();
    audiences.push(String::from_str("myclient"));
    let mut issuers: Vec<String> = Vec::new();
    issuers.push(issuer);
    proof {
        reveal_strlit("/realms/");
        reveal_strlit("myrealm");
        reveal_strlit("myclient");
    }
    let r = AuthSettings {
        keycloak_server_url: url,
        realm: String::from_str("myrealm"),
        client_id: String::from_str("myclient"),
        scope: Vec::new(),
        expected_audiences: audiences,
        expected_issuers: issuers,
        delay_during_hydration: false,
    };
    assert(r.expected_audiences@.map_values(|s: String| s@) =~= seq![client_name()]);
    assert(r.expected_issuers@.map_values(|s: String| s@) =~= seq![realm_issuer(server_url(port))]);
    r
}

} // verus!
