use cloudydesk_privacy::core_main::{
    agent_id_from_conf, join_link_params, link_with_ext, new_connection_link, registration_step,
    registration_url, remove_all_of, RegistrationStep,
};

fn strings(v: &[&str]) -> Vec<String> {
    v.iter().map(|s| s.to_string()).collect()
}

#[test]
fn agent_id_from_installer_config() {
    assert_eq!(agent_id_from_conf("Name=x\n  AgentID= agent-7 \r\nAgentID=other"), Some("agent-7".to_string()));
    assert_eq!(agent_id_from_conf("AgentID=\nAgentID=second"), Some("second".to_string()));
    assert_eq!(agent_id_from_conf("agentid=lower\nfoo"), None);
    assert_eq!(agent_id_from_conf(""), None);
}

#[test]
fn registration_endpoint() {
    assert_eq!(registration_url(""), None);
    assert_eq!(registration_url("http://h:21114"), Some("http://h:21114/api/assignment".to_string()));
    assert_eq!(registration_url("http://h:21114/"), Some("http://h:21114/api/assignment".to_string()));
}

#[test]
fn registration_retries_twice() {
    assert_eq!(registration_step(1, true), RegistrationStep::Registered);
    assert_eq!(registration_step(1, false), RegistrationStep::RetryAfterSecs(5));
    assert_eq!(registration_step(2, false), RegistrationStep::RetryAfterSecs(5));
    assert_eq!(registration_step(3, false), RegistrationStep::GaveUp);
    assert_eq!(registration_step(3, true), RegistrationStep::Registered);
}

#[test]
fn connection_link_with_parameters() {
    let args = strings(&["app", "--connect", "123456789", "--password", "pw", "--relay"]);
    assert_eq!(
        link_with_ext(&args, ".cloudydesk", "cloudydesk://"),
        Some("cloudydesk://connect/123456789?password=pw&relay=true".to_string())
    );
}

#[test]
fn connection_link_strips_app_extension() {
    let args = strings(&["--file-transfer", "peer.cloudydesk", "--switch_uuid", "u-1"]);
    assert_eq!(
        new_connection_link(&args, "CloudyDesk", "cloudydesk://"),
        Some("cloudydesk://file-transfer/peer?switch_uuid=u-1".to_string())
    );
    // the extension is only stripped when the id ends with it
    let args = strings(&["--play", "a.cloudydesk.b"]);
    assert_eq!(
        link_with_ext(&args, ".cloudydesk", "x:"),
        Some("x:play/a.cloudydesk.b".to_string())
    );
}

#[test]
fn connection_link_needs_flag_and_id() {
    assert_eq!(link_with_ext(&strings(&["--password", "pw"]), ".a", "p:"), None);
    assert_eq!(link_with_ext(&strings(&["--rdp"]), ".a", "p:"), None);
    assert_eq!(link_with_ext(&strings(&[]), ".a", "p:"), None);
    assert_eq!(link_with_ext(&strings(&["--rdp", "9", "--password"]), ".a", "p:"), Some("p:rdp/9".to_string()));
}

#[test]
fn text_helpers() {
    assert_eq!(remove_all_of("a.x.xb.x", ".x"), "ab");
    assert_eq!(remove_all_of("aaa", "aa"), "a");
    assert_eq!(remove_all_of("abc", ""), "abc");
    assert_eq!(join_link_params(&strings(&["a=1", "b=2", "c"])), "a=1&b=2&c");
    assert_eq!(join_link_params(&strings(&[])), "");
}
