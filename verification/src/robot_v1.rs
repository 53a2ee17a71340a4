//! Messages of the robot service: resource enumeration, status, sessions,
//! operations and the stop-all request.

use vstd::prelude::*;
use crate::common_v1::{PoseInFrame, ResourceName, Transform};

verus! {

/// One reference frame of the robot's frame system.
#[derive(Clone, Debug, PartialEq)]
pub struct FrameSystemConfig {
    pub frame: Option<Transform>,
    pub kinematics: Option<prost_types::Struct>,
}

#[derive(Clone, Debug, PartialEq)]
pub struct FrameSystemConfigRequest {
    /// Pose information on any additional reference frames that are needed to
    /// supplement the robot's frame system.
    pub supplemental_transforms: Vec<Transform>,
}

#[derive(Clone, Debug, PartialEq)]
pub struct FrameSystemConfigResponse {
    pub frame_system_configs: Vec<FrameSystemConfig>,
}

#[derive(Clone, Debug, PartialEq)]
pub struct TransformPoseRequest {
    /// The source pose along with the reference frame it was observed in.
    pub source: Option<PoseInFrame>,
    /// The reference frame to transform the source pose into.
    pub destination: String,
    /// Pose information on any additional reference frames that are needed to
    /// perform the transform.
    pub supplemental_transforms: Vec<Transform>,
}

#[derive(Clone, Debug, PartialEq)]
pub struct TransformPoseResponse {
    pub pose: Option<PoseInFrame>,
}

#[derive(Clone, Debug, PartialEq, Eq)]
pub struct ResourceNamesRequest {
}

#[derive(Clone, Debug, PartialEq, Eq)]
pub struct ResourceNamesResponse {
    pub resources: Vec<ResourceName>,
}

#[derive(Clone, Debug, PartialEq, Eq)]
pub struct ResourceRpcSubtype {
    pub subtype: Option<ResourceName>,
    pub proto_service: String,
}

#[derive(Clone, Debug, PartialEq, Eq)]
pub struct ResourceRpcSubtypesRequest {
}

#[derive(Clone, Debug, PartialEq, Eq)]
pub struct ResourceRpcSubtypesResponse {
    pub resource_rpc_subtypes: Vec<ResourceRpcSubtype>,
}

#[derive(Clone, Debug, PartialEq)]
pub struct Operation {
    pub id: String,
    pub method: String,
    pub arguments: Option<prost_types::Struct>,
    pub started: Option<prost_types::Timestamp>,
    pub session_id: Option<String>,
}

#[derive(Clone, Debug, PartialEq, Eq)]
pub struct GetOperationsRequest {
}

#[derive(Clone, Debug, PartialEq)]
pub struct GetOperationsResponse {
    pub operations: Vec<Operation>,
}

#[derive(Clone, Debug, PartialEq, Eq)]
pub struct CancelOperationRequest {
    pub id: String,
}

#[derive(Clone, Debug, PartialEq, Eq)]
pub struct CancelOperationResponse {
}

#[derive(Clone, Debug, PartialEq, Eq)]
pub struct BlockForOperationRequest {
    pub id: String,
}

#[derive(Clone, Debug, PartialEq, Eq)]
pub struct BlockForOperationResponse {
}

#[derive(Clone, Debug, PartialEq, Eq)]
pub struct PeerConnectionInfo {
    /// The protobuf number of a `PeerConnectionType`.
    pub typ: i32,
    pub remote_address: Option<String>,
    pub local_address: Option<String>,
}

#[derive(Clone, Debug, PartialEq, Eq)]
pub struct Session {
    pub id: String,
    pub peer_connection_info: Option<PeerConnectionInfo>,
}

#[derive(Clone, Debug, PartialEq, Eq)]
pub struct GetSessionsRequest {
}

#[derive(Clone, Debug, PartialEq, Eq)]
pub struct GetSessionsResponse {
    pub sessions: Vec<Session>,
}

#[derive(Clone, Debug, PartialEq, Eq)]
pub struct DiscoveryQuery {
    pub subtype: String,
    pub model: String,
}

#[derive(Clone, Debug, PartialEq)]
pub struct Discovery {
    pub query: Option<DiscoveryQuery>,
    pub results: Option<prost_types::Struct>,
}

#[derive(Clone, Debug, PartialEq, Eq)]
pub struct DiscoverComponentsRequest {
    pub queries: Vec<DiscoveryQuery>,
}

#[derive(Clone, Debug, PartialEq)]
pub struct DiscoverComponentsResponse {
    pub discovery: Vec<Discovery>,
}

/// The status of one resource, as dynamically typed fields.
#[derive(Clone, Debug, PartialEq)]
pub struct Status {
    pub name: Option<ResourceName>,
    pub status: Option<prost_types::Struct>,
}

#[derive(Clone, Debug, PartialEq, Eq)]
pub struct GetStatusRequest {
    pub resource_names: Vec<ResourceName>,
}

#[derive(Clone, Debug, PartialEq)]
pub struct GetStatusResponse {
    pub status: Vec<Status>,
}

#[derive(Clone, Debug, PartialEq)]
pub struct StreamStatusRequest {
    pub resource_names: Vec<ResourceName>,
    /// How often to send a new status.
    pub every: Option<prost_types::Duration>,
}

#[derive(Clone, Debug, PartialEq)]
pub struct StreamStatusResponse {
    pub status: Vec<Status>,
}

#[derive(Clone, Debug, PartialEq)]
pub struct StopExtraParameters {
    pub name: Option<ResourceName>,
    pub params: Option<prost_types::Struct>,
}

#[derive(Clone, Debug, PartialEq)]
pub struct StopAllRequest {
    pub extra: Vec<StopExtraParameters>,
}

#[derive(Clone, Debug, PartialEq, Eq)]
pub struct StopAllResponse {
}

#[derive(Clone, Debug, PartialEq, Eq)]
pub struct StartSessionRequest {
    /// Attempt to continue a stream after a disconnection event. If no such
    /// session is found, a new one is created and returned.
    pub resume: String,
}

#[derive(Clone, Debug, PartialEq)]
pub struct StartSessionResponse {
    pub id: String,
    pub heartbeat_window: Option<prost_types::Duration>,
}

#[derive(Clone, Debug, PartialEq, Eq)]
pub struct SendSessionHeartbeatRequest {
    pub id: String,
}

#[derive(Clone, Debug, PartialEq, Eq)]
pub struct SendSessionHeartbeatResponse {
}

/// How a peer is connected. On the wire the variant travels as its protobuf
/// number; see [`PeerConnectionType::to_i32`].
#[derive(Clone, Copy, Debug, PartialEq, Eq, Structural)]
pub enum PeerConnectionType {
    Unspecified,
    Grpc,
    Webrtc,
}

impl PeerConnectionType {
    /// The name of the variant in the protobuf definition.
    pub open spec fn str_name_spec(self) -> Seq<char> {
        match self {
            PeerConnectionType::Unspecified => "PEER_CONNECTION_TYPE_UNSPECIFIED"@,
            PeerConnectionType::Grpc => "PEER_CONNECTION_TYPE_GRPC"@,
            PeerConnectionType::Webrtc => "PEER_CONNECTION_TYPE_WEBRTC"@,
        }
    }

    /// The protobuf number of the variant.
    pub open spec fn i32_spec(self) -> i32 {
        match self {
            PeerConnectionType::Unspecified => 0,
            PeerConnectionType::Grpc => 1,
            PeerConnectionType::Webrtc => 2,
        }
    }

    /// String value of the enum field names used in the protobuf definition.
    ///
    /// The values are not transformed in any way and thus are considered
    /// stable (if the protobuf definition does not change) and safe for
    /// programmatic use.
    pub fn as_str_name(&self) -> (r: &'static str)
        ensures
            r@ == self.str_name_spec(),
    {
        match self {
            PeerConnectionType::Unspecified => "PEER_CONNECTION_TYPE_UNSPECIFIED",
            PeerConnectionType::Grpc => "PEER_CONNECTION_TYPE_GRPC",
            PeerConnectionType::Webrtc => "PEER_CONNECTION_TYPE_WEBRTC",
        }
    }

    /// The protobuf number of the variant, as carried in an `i32` field.
    pub fn to_i32(&self) -> (r: i32)
        ensures
            r == self.i32_spec(),
    {
        match self {
            PeerConnectionType::Unspecified => 0,
            PeerConnectionType::Grpc => 1,
            PeerConnectionType::Webrtc => 2,
        }
    }

    /// The variant with the given protobuf number, if there is one.
    pub fn from_i32(value: i32) -> (r: Option<PeerConnectionType>)
        ensures
            r is Some <==> 0 <= value <= 2,
            r is Some ==> r->0.i32_spec() == value,
    {
        match value {
            0 => Some(PeerConnectionType::Unspecified),
            1 => Some(PeerConnectionType::Grpc),
            2 => Some(PeerConnectionType::Webrtc),
            _ => None,
        }
    }
}

} // verus!
