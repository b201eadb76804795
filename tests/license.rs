use cloudydesk_privacy::license::{
    configure_servers_from_license, get_license_key, init_license_validation,
    license_key_from_conf, validate_and_configure_license, Company, LicenseError, LicenseReply,
    LicenseResponse, Limits, RelayServer, Subscription,
};

fn relay(host: &str) -> RelayServer {
    RelayServer {
        id: "r1".to_string(),
        name: "Relay".to_string(),
        host: host.to_string(),
        port: 21117,
        endpoint: format!("{}:21117", host),
    }
}

fn response(valid: bool, relays: Option<Vec<RelayServer>>) -> LicenseResponse {
    LicenseResponse {
        valid,
        company: Some(Company {
            id: "c".to_string(),
            name: "Acme".to_string(),
            license_key: "KEY".to_string(),
        }),
        limits: Some(Limits { max_agents: 5, max_clients: 2, max_sessions: 3 }),
        subscription: Some(Subscription {
            status: "active".to_string(),
            start: "2024-01-01".to_string(),
            end: "2025-01-01".to_string(),
        }),
        relay_servers: relays,
    }
}

#[test]
fn server_settings_from_relay() {
    let s = configure_servers_from_license(&relay("relay.example.com"), "ABC-123");
    assert_eq!(s.rendezvous_server, "relay.example.com:21116");
    assert_eq!(s.relay_server, "relay.example.com:21117");
    assert_eq!(s.api_server, "http://relay.example.com:21114");
    assert_eq!(s.key, "ABC-123");
    assert_eq!(s.conn_type, "incoming");
    assert_eq!(s.license_key, "ABC-123");
}

#[test]
fn valid_license_configures_first_relay() {
    let reply = LicenseReply::Parsed(response(true, Some(vec![relay("a.net"), relay("b.net")])));
    let out = validate_and_configure_license("K", reply).ok().unwrap();
    assert!(out.response.valid);
    assert_eq!(out.servers.unwrap().rendezvous_server, "a.net:21116");
    let no_relays = validate_and_configure_license("K", LicenseReply::Parsed(response(true, Some(vec![]))));
    assert!(no_relays.ok().unwrap().servers.is_none());
    let absent = validate_and_configure_license("K", LicenseReply::Parsed(response(true, None)));
    assert!(absent.ok().unwrap().servers.is_none());
}

#[test]
fn license_errors() {
    match validate_and_configure_license("K", LicenseReply::Parsed(response(false, None))) {
        Err(e) => assert_eq!(e.message(), "License is invalid or expired"),
        Ok(_) => panic!("an invalid license was accepted"),
    }
    match validate_and_configure_license("K", LicenseReply::RequestFailed("timeout".to_string())) {
        Err(e) => {
            assert!(matches!(e, LicenseError::RequestFailed(_)));
            assert_eq!(e.message(), "License validation request failed: timeout");
        }
        Ok(_) => panic!("a failed request was accepted"),
    }
    match validate_and_configure_license("K", LicenseReply::Unparsable("bad json".to_string())) {
        Err(e) => assert_eq!(e.message(), "Failed to parse license response: bad json"),
        Ok(_) => panic!("an unparsable answer was accepted"),
    }
}

#[test]
fn init_validation_outcomes() {
    assert!(!init_license_validation(None, None));
    assert!(!init_license_validation(Some("K".to_string()), None));
    assert!(init_license_validation(Some("K".to_string()), Some(LicenseReply::Parsed(response(true, None)))));
    assert!(!init_license_validation(Some("K".to_string()), Some(LicenseReply::Parsed(response(false, None)))));
    assert!(!init_license_validation(Some("K".to_string()), Some(LicenseReply::RequestFailed("x".to_string()))));
}

#[test]
fn license_file_parsing() {
    assert_eq!(license_key_from_conf("LicenseKey= ABC \n"), Some("ABC".to_string()));
    assert_eq!(license_key_from_conf("# comment\n\n  XYZ-1 \r\nLicenseKey=Q"), Some("XYZ-1".to_string()));
    assert_eq!(license_key_from_conf("LicenseKey=   \nKEY2"), Some("KEY2".to_string()));
    assert_eq!(license_key_from_conf("# only\n\n \t"), None);
    assert_eq!(license_key_from_conf(""), None);
    assert_eq!(license_key_from_conf("\u{a0}LicenseKey=\u{3000}K\u{2003}"), Some("K".to_string()));
}

#[test]
fn license_key_priority() {
    assert_eq!(get_license_key(Some("BUILT"), Some("FILE")), Some("BUILT".to_string()));
    assert_eq!(get_license_key(Some(""), Some("FILE")), Some("FILE".to_string()));
    assert_eq!(get_license_key(None, Some("#x")), None);
    assert_eq!(get_license_key(None, None), None);
}
