//! Request validation and routing for the gRPC dispatcher.
//!
//! A request is dispatched only when its method is POST, its content type is
//! gRPC, its path has the form `/{fully.qualified.Service}/{Method}`, and the
//! service and method stand in the static routing table. Everything else is
//! rejected with the unimplemented status before any handler is looked at.

use vstd::prelude::*;
use crate::ipv4::{append_dec_u8, dec_u8};

verus! {

/// gRPC status: success.
pub const GRPC_STATUS_OK: u32 = 0;

/// gRPC status: a driver reported an error.
pub const GRPC_STATUS_UNKNOWN: u32 = 2;

/// gRPC status: the payload did not decode.
pub const GRPC_STATUS_INVALID_ARGUMENT: u32 = 3;

/// gRPC status: a driver or I/O timeout.
pub const GRPC_STATUS_DEADLINE_EXCEEDED: u32 = 4;

/// gRPC status: the named resource is not in the registry.
pub const GRPC_STATUS_NOT_FOUND: u32 = 5;

/// gRPC status: the request is not for anything the dispatcher routes.
pub const GRPC_STATUS_UNIMPLEMENTED: u32 = 12;

/// A unary method the dispatcher routes to.
#[derive(Clone, Copy, Debug, PartialEq, Eq, Structural)]
pub enum KnownMethod {
    RobotResourceNames,
    RobotGetStatus,
    RobotStopAll,
    MotorSetPower,
    MotorGetPosition,
    MotorStop,
    MotorIsMoving,
    BoardSetGpio,
    BoardGetGpio,
    BoardReadAnalogReader,
    BoardStatus,
    BaseSetPower,
    BaseMoveStraight,
    BaseSpin,
    BaseStop,
    BaseIsMoving,
    CameraGetImage,
}

/// What happens to one request after validation and routing: hand it to the
/// handler of a known method, or answer with a gRPC status and no handler.
#[derive(Clone, Copy, Debug, PartialEq, Eq, Structural)]
pub enum DispatchDecision {
    Invoke(KnownMethod),
    Reject(u32),
}

/// The static routing table of the dispatcher.
pub open spec fn route_spec(service: Seq<char>, method: Seq<char>) -> Option<KnownMethod> {
    if service == "viam.robot.v1.RobotService"@ {
        if method == "ResourceNames"@ {
            Some(KnownMethod::RobotResourceNames)
        } else if method == "GetStatus"@ {
            Some(KnownMethod::RobotGetStatus)
        } else if method == "StopAll"@ {
            Some(KnownMethod::RobotStopAll)
        } else {
            None
        }
    } else if service == "viam.component.motor.v1.MotorService"@ {
        if method == "SetPower"@ {
            Some(KnownMethod::MotorSetPower)
        } else if method == "GetPosition"@ {
            Some(KnownMethod::MotorGetPosition)
        } else if method == "Stop"@ {
            Some(KnownMethod::MotorStop)
        } else if method == "IsMoving"@ {
            Some(KnownMethod::MotorIsMoving)
        } else {
            None
        }
    } else if service == "viam.component.board.v1.BoardService"@ {
        if method == "SetGPIO"@ {
            Some(KnownMethod::BoardSetGpio)
        } else if method == "GetGPIO"@ {
            Some(KnownMethod::BoardGetGpio)
        } else if method == "ReadAnalogReader"@ {
            Some(KnownMethod::BoardReadAnalogReader)
        } else if method == "Status"@ {
            Some(KnownMethod::BoardStatus)
        } else {
            None
        }
    } else if service == "viam.component.base.v1.BaseService"@ {
        if method == "SetPower"@ {
            Some(KnownMethod::BaseSetPower)
        } else if method == "MoveStraight"@ {
            Some(KnownMethod::BaseMoveStraight)
        } else if method == "Spin"@ {
            Some(KnownMethod::BaseSpin)
        } else if method == "Stop"@ {
            Some(KnownMethod::BaseStop)
        } else if method == "IsMoving"@ {
            Some(KnownMethod::BaseIsMoving)
        } else {
            None
        }
    } else if service == "viam.component.camera.v1.CameraService"@ {
        if method == "GetImage"@ {
            Some(KnownMethod::CameraGetImage)
        } else {
            None
        }
    } else {
        None
    }
}

/// Look a service and method pair up in the routing table.
pub fn route(service: &String, method: &String) -> (r: Option<KnownMethod>)
    ensures
        r == route_spec(service@, method@),
{
    if *service == "viam.robot.v1.RobotService".to_owned() {
        if *method == "ResourceNames".to_owned() {
            Some(KnownMethod::RobotResourceNames)
        } else if *method == "GetStatus".to_owned() {
            Some(KnownMethod::RobotGetStatus)
        } else if *method == "StopAll".to_owned() {
            Some(KnownMethod::RobotStopAll)
        } else {
            None
        }
    } else if *service == "viam.component.motor.v1.MotorService".to_owned() {
        if *method == "SetPower".to_owned() {
            Some(KnownMethod::MotorSetPower)
        } else if *method == "GetPosition".to_owned() {
            Some(KnownMethod::MotorGetPosition)
        } else if *method == "Stop".to_owned() {
            Some(KnownMethod::MotorStop)
        } else if *method == "IsMoving".to_owned() {
            Some(KnownMethod::MotorIsMoving)
        } else {
            None
        }
    } else if *service == "viam.component.board.v1.BoardService".to_owned() {
        if *method == "SetGPIO".to_owned() {
            Some(KnownMethod::BoardSetGpio)
        } else if *method == "GetGPIO".to_owned() {
            Some(KnownMethod::BoardGetGpio)
        } else if *method == "ReadAnalogReader".to_owned() {
            Some(KnownMethod::BoardReadAnalogReader)
        } else if *method == "Status".to_owned() {
            Some(KnownMethod::BoardStatus)
        } else {
            None
        }
    } else if *service == "viam.component.base.v1.BaseService".to_owned() {
        if *method == "SetPower".to_owned() {
            Some(KnownMethod::BaseSetPower)
        } else if *method == "MoveStraight".to_owned() {
            Some(KnownMethod::BaseMoveStraight)
        } else if *method == "Spin".to_owned() {
            Some(KnownMethod::BaseSpin)
        } else if *method == "Stop".to_owned() {
            Some(KnownMethod::BaseStop)
        } else if *method == "IsMoving".to_owned() {
            Some(KnownMethod::BaseIsMoving)
        } else {
            None
        }
    } else if *service == "viam.component.camera.v1.CameraService".to_owned() {
        if *method == "GetImage".to_owned() {
            Some(KnownMethod::CameraGetImage)
        } else {
            None
        }
    } else {
        None
    }
}

/// The position of the first `/` at or after `from`, or the length when there
/// is none.
pub open spec fn find_slash(p: Seq<char>, from: int) -> int
    decreases p.len() - from when 0 <= from <= p.len()
{
    if from >= p.len() {
        p.len() as int
    } else if p[from] == '/' {
        from
    } else {
        find_slash(p, from + 1)
    }
}

/// A path the dispatcher accepts: a leading `/`, a non-empty service, one
/// more `/`, and a non-empty method with no further `/`.
pub open spec fn valid_path(p: Seq<char>) -> bool {
    let k = find_slash(p, 1);
    &&& p.len() >= 3
    &&& p[0] == '/'
    &&& 1 < k < p.len() - 1
    &&& find_slash(p, k + 1) == p.len()
}

/// The service part of a valid path.
pub open spec fn service_of(p: Seq<char>) -> Seq<char> {
    p.subrange(1, find_slash(p, 1))
}

/// The method part of a valid path.
pub open spec fn method_of(p: Seq<char>) -> Seq<char> {
    p.subrange(find_slash(p, 1) + 1, p.len() as int)
}

proof fn lemma_find_slash_value(p: Seq<char>, from: int, k: int)
    requires
        0 <= from <= k <= p.len(),
        forall|j: int| from <= j < k ==> p[j] != '/',
        k < p.len() ==> p[k] == '/',
    ensures
        find_slash(p, from) == k,
    decreases k - from,
{
    if from < k {
        lemma_find_slash_value(p, from + 1, k);
    }
}

/// Split a request path into its service and method parts. Returns the parts
/// exactly when the path has the accepted form.
pub fn split_path(path: &str) -> (r: Option<(String, String)>)
    ensures
        r is Some <==> valid_path(path@),
        r matches Some(sm) ==> sm.0@ == service_of(path@) && sm.1@ == method_of(path@),
{
    let n = path.unicode_len();
    if n < 3 {
        return None;
    }
    proof {
        reveal_strlit("/");
    }
    if path.get_char(0) != '/' {
        return None;
    }
    let mut k: usize = 1;
    while k < n && path.get_char(k) != '/'
        invariant
            1 <= k <= n,
            n == path@.len(),
            forall|j: int| 1 <= j < k ==> path@[j] != '/',
        decreases n - k,
    {
        k = k + 1;
    }
    proof {
        lemma_find_slash_value(path@, 1, k as int);
    }
    if k >= n - 1 {
        // no separating slash, or an empty method
        return None;
    }
    if k == 1 {
        // an empty service
        return None;
    }
    let mut j: usize = k + 1;
    while j < n && path.get_char(j) != '/'
        invariant
            k + 1 <= j <= n,
            n == path@.len(),
            forall|i: int| k + 1 <= i < j ==> path@[i] != '/',
        decreases n - j,
    {
        j = j + 1;
    }
    if j < n {
        // a further slash inside the method
        proof {
            lemma_find_slash_value(path@, k as int + 1, j as int);
        }
        return None;
    }
    proof {
        lemma_find_slash_value(path@, k as int + 1, n as int);
    }
    let service = path.substring_char(1, k).to_owned();
    let method = path.substring_char(k + 1, n).to_owned();
    Some((service, method))
}

/// Whether a content type announces gRPC: it starts with `application/grpc`.
pub open spec fn content_type_is_grpc(ct: Seq<char>) -> bool {
    ct.len() >= "application/grpc"@.len() && ct.subrange(
        0,
        "application/grpc"@.len() as int,
    ) == "application/grpc"@
}

/// What the dispatcher does with a request, given its HTTP method, content
/// type and path: hand it to the handler the routing table names, or reject
/// it as unimplemented without touching any handler.
pub open spec fn classify_spec(
    http_method: Seq<char>,
    content_type: Seq<char>,
    path: Seq<char>,
) -> DispatchDecision {
    if http_method != "POST"@ {
        DispatchDecision::Reject(GRPC_STATUS_UNIMPLEMENTED)
    } else if !content_type_is_grpc(content_type) {
        DispatchDecision::Reject(GRPC_STATUS_UNIMPLEMENTED)
    } else if !valid_path(path) {
        DispatchDecision::Reject(GRPC_STATUS_UNIMPLEMENTED)
    } else {
        match route_spec(service_of(path), method_of(path)) {
            Some(m) => DispatchDecision::Invoke(m),
            None => DispatchDecision::Reject(GRPC_STATUS_UNIMPLEMENTED),
        }
    }
}

/// Validate and route one request.
pub fn classify_request(http_method: &String, content_type: &String, path: &String) -> (r:
    DispatchDecision)
    ensures
        r == classify_spec(http_method@, content_type@, path@),
{
    if !(*http_method == "POST".to_owned()) {
        return DispatchDecision::Reject(GRPC_STATUS_UNIMPLEMENTED);
    }
    proof {
        reveal_strlit("application/grpc");
    }
    let ct_ok = if content_type.as_str().unicode_len() >= 16 {
        let prefix = content_type.as_str().substring_char(0, 16).to_owned();
        prefix == "application/grpc".to_owned()
    } else {
        false
    };
    if !ct_ok {
        return DispatchDecision::Reject(GRPC_STATUS_UNIMPLEMENTED);
    }
    match split_path(path.as_str()) {
        None => DispatchDecision::Reject(GRPC_STATUS_UNIMPLEMENTED),
        Some((service, method)) => match route(&service, &method) {
            Some(m) => DispatchDecision::Invoke(m),
            None => DispatchDecision::Reject(GRPC_STATUS_UNIMPLEMENTED),
        },
    }
}

/// The trailer pair that closes every response stream: `grpc-status` with the
/// code in decimal ASCII. The gRPC status codes all fit in one byte.
pub fn status_trailer(status: u32) -> (r: (String, String))
    requires
        status < 256,
    ensures
        r.0@ == "grpc-status"@,
        r.1@ == dec_u8(status as int),
{
    let mut value = String::new();
    append_dec_u8(&mut value, status as u8);
    ("grpc-status".to_owned(), value)
}

/// Dispatch totality: a handler runs only for a request whose path stands in
/// the routing table, and any path outside it is answered with the
/// unimplemented status and no handler is invoked.
pub proof fn lemma_dispatch_totality(
    http_method: Seq<char>,
    content_type: Seq<char>,
    path: Seq<char>,
)
    ensures
        classify_spec(http_method, content_type, path) matches DispatchDecision::Invoke(m)
            ==> valid_path(path) && route_spec(service_of(path), method_of(path)) == Some(m),
        !valid_path(path) || route_spec(service_of(path), method_of(path)) is None
            ==> classify_spec(http_method, content_type, path) == DispatchDecision::Reject(
            GRPC_STATUS_UNIMPLEMENTED,
        ),
{
}

} // verus!
