use frontend::settings::{auth_settings, keycloak_server_url};

#[test]
fn server_url_names_port() {
    assert_eq!(keycloak_server_url(8443), "http://localhost:8443");
    assert_eq!(keycloak_server_url(0), "http://localhost:0");
}

#[test]
fn settings_for_port() {
    let s = auth_settings(33061);
    assert_eq!(s.keycloak_server_url, "http://localhost:33061");
    assert_eq!(s.realm, "myrealm");
    assert_eq!(s.client_id, "myclient");
    assert!(s.scope.is_empty());
    assert!(!s.delay_during_hydration);
    assert_eq!(s.expected_audiences, vec!["myclient".to_string()]);
    assert_eq!(s.expected_issuers, vec!["http://localhost:33061/realms/myrealm".to_string()]);
}
