use mini_rdk::common_v1::ResourceName;
use mini_rdk::navigation_v1::Mode;
use mini_rdk::robot_v1::{
    Operation, PeerConnectionType, ResourceNamesResponse, Status, StopAllRequest,
    StopExtraParameters,
};

fn name(subtype: &str, name: &str) -> ResourceName {
    ResourceName {
        namespace: "rdk".to_string(),
        typ: "component".to_string(),
        subtype: subtype.to_string(),
        name: name.to_string(),
    }
}

#[test]
fn peer_connection_type_str_names() {
    assert_eq!(
        PeerConnectionType::Unspecified.as_str_name(),
        "PEER_CONNECTION_TYPE_UNSPECIFIED"
    );
    assert_eq!(PeerConnectionType::Grpc.as_str_name(), "PEER_CONNECTION_TYPE_GRPC");
    assert_eq!(PeerConnectionType::Webrtc.as_str_name(), "PEER_CONNECTION_TYPE_WEBRTC");
}

#[test]
fn peer_connection_type_numbers() {
    assert_eq!(PeerConnectionType::Unspecified.to_i32(), 0);
    assert_eq!(PeerConnectionType::Grpc.to_i32(), 1);
    assert_eq!(PeerConnectionType::Webrtc.to_i32(), 2);
    assert_eq!(PeerConnectionType::from_i32(1), Some(PeerConnectionType::Grpc));
    assert_eq!(PeerConnectionType::from_i32(3), None);
    assert_eq!(PeerConnectionType::from_i32(-1), None);
}

#[test]
fn mode_numbers() {
    assert_eq!(Mode::Unspecified.to_i32(), 0);
    assert_eq!(Mode::Manual.to_i32(), 1);
    assert_eq!(Mode::Waypoint.to_i32(), 2);
    assert_eq!(Mode::from_i32(2), Some(Mode::Waypoint));
    assert_eq!(Mode::from_i32(7), None);
}

#[test]
fn resource_name_canonical_form() {
    let n = name("motor", "m1");
    assert_eq!(n.to_canonical_string(), "rdk:component:motor/m1");
}

#[test]
fn resource_name_well_formedness() {
    assert!(name("motor", "m1").is_well_formed());
    assert!(!name("motor", "").is_well_formed());
    assert!(!name("", "m1").is_well_formed());
    let non_ascii = ResourceName {
        namespace: "rdk".to_string(),
        typ: "component".to_string(),
        subtype: "motor".to_string(),
        name: "m\u{e9}".to_string(),
    };
    assert!(!non_ascii.is_well_formed());
}

#[test]
fn resource_names_response_holds_a_registry_listing() {
    let resp = ResourceNamesResponse {
        resources: vec![
            name("motor", "m1"),
            name("motor", "m2"),
            name("board", "b"),
            name("base", "base"),
        ],
    };
    assert_eq!(resp.resources.len(), 4);
    assert_eq!(resp.resources[0].to_canonical_string(), "rdk:component:motor/m1");
    assert_eq!(resp.resources[3].to_canonical_string(), "rdk:component:base/base");
    assert_eq!(resp.clone(), resp);
}

#[test]
fn messages_carry_wkt_values_through() {
    let op = Operation {
        id: "op-1".to_string(),
        method: "/viam.robot.v1.RobotService/StopAll".to_string(),
        arguments: Some(prost_types::Struct::default()),
        started: Some(prost_types::Timestamp { seconds: 12, nanos: 34 }),
        session_id: None,
    };
    assert_eq!(op.started.as_ref().unwrap().seconds, 12);
    let stop = StopAllRequest {
        extra: vec![StopExtraParameters { name: Some(name("motor", "m1")), params: None }],
    };
    assert_eq!(stop.extra.len(), 1);
    let status = Status { name: Some(name("board", "b")), status: None };
    assert_eq!(status.name.as_ref().unwrap().subtype, "board");
}
