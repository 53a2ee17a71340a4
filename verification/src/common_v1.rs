//! Message types shared by every service: resource names, poses and
//! geographic points.
//!
//! A pose's linear components are in millimetres and its angular components in
//! millidegrees; a geographic point is in microdegrees. The wire form of these
//! messages carries them as floating-point numbers, which the library does not
//! hold: the program around the library converts at the codec boundary.

use vstd::prelude::*;
use vstd::utf8::is_ascii_chars;

verus! {

/// A fully qualified resource name: the four-tuple that is the primary key of
/// the registry. All four parts are non-empty ASCII in a well-formed name.
#[derive(Clone, Debug, PartialEq, Eq)]
pub struct ResourceName {
    pub namespace: String,
    pub typ: String,
    pub subtype: String,
    pub name: String,
}

impl ResourceName {
    /// All four parts are non-empty ASCII.
    pub open spec fn well_formed(self) -> bool {
        &&& self.namespace@.len() > 0 && is_ascii_chars(self.namespace@)
        &&& self.typ@.len() > 0 && is_ascii_chars(self.typ@)
        &&& self.subtype@.len() > 0 && is_ascii_chars(self.subtype@)
        &&& self.name@.len() > 0 && is_ascii_chars(self.name@)
    }

    /// The canonical string form: `namespace:type:subtype/name`.
    pub open spec fn canonical_chars(self) -> Seq<char> {
        self.namespace@ + seq![':'] + self.typ@ + seq![':'] + self.subtype@ + seq!['/']
            + self.name@
    }

    /// Whether the name satisfies the data-model invariant: every part
    /// non-empty and ASCII.
    pub fn is_well_formed(&self) -> (b: bool)
        ensures
            b == self.well_formed(),
    {
        !self.namespace.as_str().is_empty() && self.namespace.as_str().is_ascii()
            && !self.typ.as_str().is_empty() && self.typ.as_str().is_ascii()
            && !self.subtype.as_str().is_empty() && self.subtype.as_str().is_ascii()
            && !self.name.as_str().is_empty() && self.name.as_str().is_ascii()
    }

    /// Render the canonical string form `namespace:type:subtype/name`.
    pub fn to_canonical_string(&self) -> (r: String)
        ensures
            r@ == self.canonical_chars(),
    {
        proof {
            reveal_strlit(":");
            reveal_strlit("/");
        }
        let mut s = self.namespace.clone();
        s.append(":");
        s.append(self.typ.as_str());
        s.append(":");
        s.append(self.subtype.as_str());
        s.append("/");
        s.append(self.name.as_str());
        s
    }
}

/// A position and orientation. Linear components are in millimetres, angular
/// components in millidegrees.
#[derive(Clone, Copy, Debug, PartialEq, Eq, Structural)]
pub struct Pose {
    pub x_mm: i64,
    pub y_mm: i64,
    pub z_mm: i64,
    pub o_x_mdeg: i64,
    pub o_y_mdeg: i64,
    pub o_z_mdeg: i64,
    pub theta_mdeg: i64,
}

/// A pose together with the reference frame it was observed in.
#[derive(Clone, Debug, PartialEq, Eq)]
pub struct PoseInFrame {
    pub reference_frame: String,
    pub pose: Option<Pose>,
}

/// A named reference frame and its pose in the observer's frame.
#[derive(Clone, Debug, PartialEq, Eq)]
pub struct Transform {
    pub reference_frame: String,
    pub pose_in_observer_frame: Option<PoseInFrame>,
}

/// A geographic point, in microdegrees of latitude and longitude.
#[derive(Clone, Copy, Debug, PartialEq, Eq, Structural)]
pub struct GeoPoint {
    pub latitude_udeg: i64,
    pub longitude_udeg: i64,
}

} // verus!
