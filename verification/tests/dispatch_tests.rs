use mini_rdk::dispatch::{
    classify_request, route, split_path, status_trailer, DispatchDecision, KnownMethod,
    GRPC_STATUS_NOT_FOUND, GRPC_STATUS_OK, GRPC_STATUS_UNIMPLEMENTED,
};

fn classify(method: &str, content_type: &str, path: &str) -> DispatchDecision {
    classify_request(&method.to_string(), &content_type.to_string(), &path.to_string())
}

#[test]
fn routing_table_covers_all_services() {
    let cases: Vec<(&str, &str, KnownMethod)> = vec![
        ("viam.robot.v1.RobotService", "ResourceNames", KnownMethod::RobotResourceNames),
        ("viam.robot.v1.RobotService", "GetStatus", KnownMethod::RobotGetStatus),
        ("viam.robot.v1.RobotService", "StopAll", KnownMethod::RobotStopAll),
        ("viam.component.motor.v1.MotorService", "SetPower", KnownMethod::MotorSetPower),
        ("viam.component.motor.v1.MotorService", "GetPosition", KnownMethod::MotorGetPosition),
        ("viam.component.motor.v1.MotorService", "Stop", KnownMethod::MotorStop),
        ("viam.component.motor.v1.MotorService", "IsMoving", KnownMethod::MotorIsMoving),
        ("viam.component.board.v1.BoardService", "SetGPIO", KnownMethod::BoardSetGpio),
        ("viam.component.board.v1.BoardService", "GetGPIO", KnownMethod::BoardGetGpio),
        (
            "viam.component.board.v1.BoardService",
            "ReadAnalogReader",
            KnownMethod::BoardReadAnalogReader,
        ),
        ("viam.component.board.v1.BoardService", "Status", KnownMethod::BoardStatus),
        ("viam.component.base.v1.BaseService", "SetPower", KnownMethod::BaseSetPower),
        ("viam.component.base.v1.BaseService", "MoveStraight", KnownMethod::BaseMoveStraight),
        ("viam.component.base.v1.BaseService", "Spin", KnownMethod::BaseSpin),
        ("viam.component.base.v1.BaseService", "Stop", KnownMethod::BaseStop),
        ("viam.component.base.v1.BaseService", "IsMoving", KnownMethod::BaseIsMoving),
        ("viam.component.camera.v1.CameraService", "GetImage", KnownMethod::CameraGetImage),
    ];
    for (service, method, expected) in cases {
        assert_eq!(route(&service.to_string(), &method.to_string()), Some(expected));
    }
}

#[test]
fn routing_rejects_unknown_pairs() {
    assert_eq!(route(&"not.a.Service".to_string(), &"Method".to_string()), None);
    assert_eq!(route(&"viam.robot.v1.RobotService".to_string(), &"SetPower".to_string()), None);
    assert_eq!(
        route(&"viam.component.motor.v1.MotorService".to_string(), &"GetImage".to_string()),
        None
    );
    assert_eq!(route(&"".to_string(), &"".to_string()), None);
}

#[test]
fn split_path_accepts_the_grpc_form() {
    let (service, method) = split_path("/viam.robot.v1.RobotService/ResourceNames").unwrap();
    assert_eq!(service, "viam.robot.v1.RobotService");
    assert_eq!(method, "ResourceNames");
    let (service, method) = split_path("/a/b").unwrap();
    assert_eq!(service, "a");
    assert_eq!(method, "b");
}

#[test]
fn split_path_rejects_malformed_paths() {
    assert_eq!(split_path(""), None);
    assert_eq!(split_path("/"), None);
    assert_eq!(split_path("noslash"), None);
    assert_eq!(split_path("a/b"), None);
    assert_eq!(split_path("/onlyservice"), None);
    assert_eq!(split_path("//method"), None);
    assert_eq!(split_path("/service/"), None);
    assert_eq!(split_path("/a/b/c"), None);
}

#[test]
fn classify_invokes_a_routed_request() {
    assert_eq!(
        classify("POST", "application/grpc", "/viam.robot.v1.RobotService/StopAll"),
        DispatchDecision::Invoke(KnownMethod::RobotStopAll)
    );
    // any content type that starts with application/grpc counts as gRPC
    assert_eq!(
        classify(
            "POST",
            "application/grpc+proto",
            "/viam.component.motor.v1.MotorService/SetPower"
        ),
        DispatchDecision::Invoke(KnownMethod::MotorSetPower)
    );
}

#[test]
fn unknown_path_is_unimplemented_and_reaches_no_handler() {
    assert_eq!(
        classify("POST", "application/grpc", "/not.a.Service/Method"),
        DispatchDecision::Reject(GRPC_STATUS_UNIMPLEMENTED)
    );
    assert_eq!(
        classify("POST", "application/grpc", "/viam.robot.v1.RobotService/NoSuchMethod"),
        DispatchDecision::Reject(GRPC_STATUS_UNIMPLEMENTED)
    );
    assert_eq!(
        classify("POST", "application/grpc", "not-a-path"),
        DispatchDecision::Reject(GRPC_STATUS_UNIMPLEMENTED)
    );
}

#[test]
fn classify_rejects_bad_method_or_content_type() {
    assert_eq!(
        classify("GET", "application/grpc", "/viam.robot.v1.RobotService/StopAll"),
        DispatchDecision::Reject(GRPC_STATUS_UNIMPLEMENTED)
    );
    assert_eq!(
        classify("POST", "text/html", "/viam.robot.v1.RobotService/StopAll"),
        DispatchDecision::Reject(GRPC_STATUS_UNIMPLEMENTED)
    );
    assert_eq!(
        classify("POST", "application/grp", "/viam.robot.v1.RobotService/StopAll"),
        DispatchDecision::Reject(GRPC_STATUS_UNIMPLEMENTED)
    );
}

#[test]
fn status_trailer_renders_decimal_ascii() {
    assert_eq!(
        status_trailer(GRPC_STATUS_OK),
        ("grpc-status".to_string(), "0".to_string())
    );
    assert_eq!(
        status_trailer(GRPC_STATUS_NOT_FOUND),
        ("grpc-status".to_string(), "5".to_string())
    );
    assert_eq!(
        status_trailer(GRPC_STATUS_UNIMPLEMENTED),
        ("grpc-status".to_string(), "12".to_string())
    );
}
