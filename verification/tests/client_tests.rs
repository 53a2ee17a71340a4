use mini_rdk::ipv4::{ipv4_to_string, Ipv4};
use mini_rdk::robot_client::{
    server_may_start, BootstrapPhase, RobotClient, RobotClientConfig,
};
use mini_rdk::rpc_v1::AuthenticateResponse;

fn demo_config() -> RobotClientConfig {
    RobotClientConfig::new(
        "robot-secret-value".to_string(),
        "robot-42".to_string(),
        Ipv4 { a: 10, b: 1, c: 2, d: 3 },
    )
}

#[test]
fn ipv4_renders_dotted_decimal() {
    assert_eq!(ipv4_to_string(&Ipv4 { a: 192, b: 168, c: 0, d: 1 }), "192.168.0.1");
    assert_eq!(ipv4_to_string(&Ipv4 { a: 0, b: 0, c: 0, d: 0 }), "0.0.0.0");
    assert_eq!(ipv4_to_string(&Ipv4 { a: 255, b: 255, c: 255, d: 255 }), "255.255.255.255");
    assert_eq!(ipv4_to_string(&Ipv4 { a: 10, b: 0, c: 42, d: 7 }), "10.0.42.7");
}

#[test]
fn config_starts_without_main_handle() {
    let mut cfg = demo_config();
    assert_eq!(cfg.main_handle, None);
    cfg.set_main_handle(5);
    assert_eq!(cfg.main_handle, Some(5));
    assert_eq!(cfg.robot_id, "robot-42");
}

#[test]
fn request_head_without_token_has_three_headers() {
    let client = RobotClient::new(demo_config());
    let head = client.build_request("/proto.rpc.v1.AuthService/Authenticate");
    assert_eq!(head.uri, "https://app.viam.com:443/proto.rpc.v1.AuthService/Authenticate");
    assert_eq!(
        head.headers,
        vec![
            ("content-type".to_string(), "application/grpc".to_string()),
            ("te".to_string(), "trailers".to_string()),
            ("user-agent".to_string(), "esp32".to_string()),
        ]
    );
}

#[test]
fn bootstrap_walk_stores_bearer_token_and_reports_success() {
    let mut cfg = demo_config();
    cfg.set_main_handle(0);
    let mut client = RobotClient::new(cfg);
    assert_eq!(client.jwt, None);
    assert_eq!(client.phase, BootstrapPhase::Created);

    let (auth_head, auth_req) = client.auth_request();
    assert_eq!(
        auth_head.uri,
        "https://app.viam.com:443/proto.rpc.v1.AuthService/Authenticate"
    );
    assert_eq!(auth_head.headers.len(), 3);
    assert_eq!(auth_req.entity, "robot-42");
    let cred = auth_req.credentials.expect("credentials are set");
    assert_eq!(cred.typ, "robot-secret");
    assert_eq!(cred.payload, "robot-secret-value");
    assert_eq!(client.jwt, None);

    client.on_auth_success(AuthenticateResponse { access_token: "tok123".to_string() });
    assert_eq!(client.jwt.as_deref(), Some("Bearer tok123"));

    let (cfg_head, cfg_req) = client.config_request();
    assert_eq!(cfg_head.uri, "https://app.viam.com:443/viam.app.v1.RobotService/Config");
    assert_eq!(cfg_head.headers.len(), 4);
    assert_eq!(
        cfg_head.headers[3],
        ("authorization".to_string(), "Bearer tok123".to_string())
    );
    assert_eq!(cfg_req.id, "robot-42");
    let agent = cfg_req.agent_info.expect("agent info is set");
    assert_eq!(agent.os, "esp32");
    assert_eq!(agent.host, "esp32");
    assert_eq!(agent.version, "0.0.2");
    assert_eq!(agent.git_revision, "");
    assert_eq!(agent.ips, vec!["10.1.2.3".to_string()]);

    client.on_config_success();
    assert_eq!(client.phase, BootstrapPhase::Configured);
    assert_eq!(client.jwt.as_deref(), Some("Bearer tok123"));
    assert_eq!(client.completion_notification(), Some((0, 1)));
    assert!(!client.should_wait_for_server());
}

#[test]
fn failure_keeps_token_and_notifies_exit() {
    let mut cfg = demo_config();
    cfg.set_main_handle(9);
    let mut client = RobotClient::new(cfg);
    let (_head, _req) = client.auth_request();
    client.on_auth_success(AuthenticateResponse { access_token: "tok".to_string() });
    let (_head, _req) = client.config_request();
    client.on_failure();
    assert_eq!(client.phase, BootstrapPhase::Failed);
    // the token, once stored, is never cleared
    assert_eq!(client.jwt.as_deref(), Some("Bearer tok"));
    assert_eq!(client.completion_notification(), Some((9, 0)));
}

#[test]
fn without_main_handle_client_waits_instead_of_notifying() {
    let mut client = RobotClient::new(demo_config());
    let (_head, _req) = client.auth_request();
    client.on_failure();
    assert_eq!(client.completion_notification(), None);
    assert!(client.should_wait_for_server());
}

#[test]
fn any_delivered_notification_lets_the_server_start() {
    assert!(server_may_start(Some(1)));
    assert!(server_may_start(Some(0)));
    assert!(!server_may_start(None));
}
