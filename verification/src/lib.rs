//! Core logic of an embedded robot firmware that exposes attached hardware
//! over gRPC and dials out to a cloud control plane to authenticate and fetch
//! its configuration.
//!
//! The library holds the verified parts: gRPC message framing, the protobuf
//! message data model, request construction for the cloud bootstrap, and the
//! bootstrap state machine. Transport (TLS, HTTP/2, task scheduling) and the
//! protobuf wire codec live outside the library and are driven by the
//! surrounding program.

pub mod app_v1;
pub mod common_v1;
pub mod dispatch;
pub mod frame;
pub mod ipv4;
pub mod navigation_v1;
pub mod registry;
pub mod robot_client;
pub mod robot_v1;
pub mod rpc_v1;
pub mod wkt;
