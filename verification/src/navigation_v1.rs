//! Messages of the navigation service: modes, location and waypoints.

use vstd::prelude::*;
use crate::common_v1::GeoPoint;

verus! {

#[derive(Clone, Debug, PartialEq, Eq)]
pub struct GetModeRequest {
    pub name: String,
}

#[derive(Clone, Debug, PartialEq, Eq)]
pub struct GetModeResponse {
    /// The protobuf number of a `Mode`.
    pub mode: i32,
}

#[derive(Clone, Debug, PartialEq, Eq)]
pub struct SetModeRequest {
    pub name: String,
    /// The protobuf number of a `Mode`.
    pub mode: i32,
}

#[derive(Clone, Debug, PartialEq, Eq)]
pub struct SetModeResponse {
}

#[derive(Clone, Debug, PartialEq, Eq)]
pub struct Waypoint {
    pub id: String,
    pub location: Option<GeoPoint>,
}

#[derive(Clone, Debug, PartialEq, Eq)]
pub struct GetLocationRequest {
    pub name: String,
}

#[derive(Clone, Debug, PartialEq, Eq)]
pub struct GetLocationResponse {
    pub location: Option<GeoPoint>,
}

#[derive(Clone, Debug, PartialEq, Eq)]
pub struct GetWaypointsRequest {
    pub name: String,
}

#[derive(Clone, Debug, PartialEq, Eq)]
pub struct GetWaypointsResponse {
    pub waypoints: Vec<Waypoint>,
}

#[derive(Clone, Debug, PartialEq, Eq)]
pub struct AddWaypointRequest {
    pub name: String,
    pub location: Option<GeoPoint>,
}

#[derive(Clone, Debug, PartialEq, Eq)]
pub struct AddWaypointResponse {
}

#[derive(Clone, Debug, PartialEq, Eq)]
pub struct RemoveWaypointRequest {
    pub name: String,
    pub id: String,
}

#[derive(Clone, Debug, PartialEq, Eq)]
pub struct RemoveWaypointResponse {
}

/// How the navigation service steers the robot. On the wire the variant
/// travels as its protobuf number; see [`Mode::to_i32`].
#[derive(Clone, Copy, Debug, PartialEq, Eq, Structural)]
pub enum Mode {
    Unspecified,
    Manual,
    Waypoint,
}

impl Mode {
    /// The protobuf number of the variant.
    pub open spec fn i32_spec(self) -> i32 {
        match self {
            Mode::Unspecified => 0,
            Mode::Manual => 1,
            Mode::Waypoint => 2,
        }
    }

    /// The protobuf number of the variant, as carried in an `i32` field.
    pub fn to_i32(&self) -> (r: i32)
        ensures
            r == self.i32_spec(),
    {
        match self {
            Mode::Unspecified => 0,
            Mode::Manual => 1,
            Mode::Waypoint => 2,
        }
    }

    /// The variant with the given protobuf number, if there is one.
    pub fn from_i32(value: i32) -> (r: Option<Mode>)
        ensures
            r is Some <==> 0 <= value <= 2,
            r is Some ==> r->0.i32_spec() == value,
    {
        match value {
            0 => Some(Mode::Unspecified),
            1 => Some(Mode::Manual),
            2 => Some(Mode::Waypoint),
            _ => None,
        }
    }
}

} // verus!
