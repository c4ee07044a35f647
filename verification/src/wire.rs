//! The bodies in which positions arrive and leave, and how they are read.
//!
//! On the wire both axes are 32-bit integers. The actuator keeps 16 bits: a
//! body's values are cut down to their low 16 bits, read as signed numbers.

use crate::cycle::{Reply, Request};
use crate::position::{narrow, wrap_i16, PositionDelta, PositionValue};
use crate::resolver::RequestedUpdate;
use vstd::prelude::*;
use vstd::std_specs::convert::FromSpec;

verus! {

/// A pan/tilt pair as it stands in a request or reply body.
#[derive(Clone, Copy, Debug, PartialEq, Eq, Structural)]
pub struct CameraState {
    pub tilt: i32,
    pub pan: i32,
}

/// The body of an update request.
#[derive(Clone, Copy, Debug, PartialEq, Eq, Structural)]
pub struct CameraStateRequest {
    pub camera: CameraState,
}

/// The body of every reply that carries a position.
#[derive(Clone, Copy, Debug, PartialEq, Eq, Structural)]
pub struct CameraStateResponse {
    pub camera: CameraState,
}

impl From<PositionValue> for CameraState {
    /// Writes a position into a body. No value changes: 16 bits fit in 32.
    fn from(val: PositionValue) -> (state: CameraState) {
        CameraState { tilt: val.tilt as i32, pan: val.pan as i32 }
    }
}

impl vstd::std_specs::convert::FromSpecImpl<PositionValue> for CameraState {
    open spec fn obeys_from_spec() -> bool {
        true
    }

    open spec fn from_spec(val: PositionValue) -> CameraState {
        CameraState { tilt: val.tilt as i32, pan: val.pan as i32 }
    }
}

impl From<CameraState> for PositionValue {
    /// Reads a body as a position, keeping the low 16 bits of each axis.
    fn from(state: CameraState) -> (position: PositionValue) {
        PositionValue { pan: narrow(state.pan), tilt: narrow(state.tilt) }
    }
}

impl vstd::std_specs::convert::FromSpecImpl<CameraState> for PositionValue {
    open spec fn obeys_from_spec() -> bool {
        true
    }

    open spec fn from_spec(state: CameraState) -> PositionValue {
        PositionValue {
            pan: wrap_i16(state.pan as int) as i16,
            tilt: wrap_i16(state.tilt as int) as i16,
        }
    }
}

impl From<CameraState> for PositionDelta {
    /// Reads a body as a displacement, keeping the low 16 bits of each axis.
    fn from(state: CameraState) -> (delta: PositionDelta) {
        PositionDelta { pan: narrow(state.pan), tilt: narrow(state.tilt) }
    }
}

impl vstd::std_specs::convert::FromSpecImpl<CameraState> for PositionDelta {
    open spec fn obeys_from_spec() -> bool {
        true
    }

    open spec fn from_spec(state: CameraState) -> PositionDelta {
        PositionDelta {
            pan: wrap_i16(state.pan as int) as i16,
            tilt: wrap_i16(state.tilt as int) as i16,
        }
    }
}

impl CameraStateRequest {
    /// The update that takes the body's values as the target itself.
    pub open spec fn as_absolute(self) -> Request {
        Request::Update(RequestedUpdate::Absolute(PositionValue::from_spec(self.camera)))
    }

    /// The update that adds the body's values to the current position.
    pub open spec fn as_relative(self) -> Request {
        Request::Update(RequestedUpdate::Relative(PositionDelta::from_spec(self.camera)))
    }

    /// Reads the body as an absolute update: both axes are overwritten with
    /// exactly the values supplied.
    pub fn absolute(&self) -> (request: Request)
        ensures
            request == self.as_absolute(),
    {
        Request::Update(RequestedUpdate::Absolute(PositionValue::from(self.camera)))
    }

    /// Reads the body as a relative update: a displacement of both axes.
    pub fn relative(&self) -> (request: Request)
        ensures
            request == self.as_relative(),
    {
        Request::Update(RequestedUpdate::Relative(PositionDelta::from(self.camera)))
    }
}

impl CameraStateResponse {
    /// The body for `reply`, where it has one.
    pub open spec fn of(reply: Reply) -> Option<CameraStateResponse> {
        match reply {
            Reply::Position(position) => Some(
                CameraStateResponse { camera: CameraState::from_spec(position) },
            ),
            Reply::Acknowledged => None,
        }
    }

    /// Puts a reply into its body. A position is reported as it was read; an
    /// acknowledgement has no body.
    pub fn for_reply(reply: Reply) -> (body: Option<CameraStateResponse>)
        ensures
            body == Self::of(reply),
    {
        match reply {
            Reply::Position(position) => Some(
                CameraStateResponse { camera: CameraState::from(position) },
            ),
            Reply::Acknowledged => None,
        }
    }
}

} // verus!
