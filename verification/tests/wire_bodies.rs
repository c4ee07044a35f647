use pantilt::cycle::{Reply, Request};
use pantilt::position::{PositionDelta, PositionValue};
use pantilt::resolver::RequestedUpdate;
use pantilt::wire::{CameraState, CameraStateRequest, CameraStateResponse};

fn body(pan: i32, tilt: i32) -> CameraStateRequest {
    CameraStateRequest { camera: CameraState { tilt, pan } }
}

#[test]
fn position_widens_into_a_body() {
    let state = CameraState::from(PositionValue { pan: 10, tilt: 5 });
    assert_eq!(state, CameraState { tilt: 5, pan: 10 });
    let state = CameraState::from(PositionValue { pan: i16::MIN, tilt: i16::MAX });
    assert_eq!(state, CameraState { tilt: 32767, pan: -32768 });
}

#[test]
fn body_reads_as_a_position() {
    let position: PositionValue = CameraState { tilt: 5, pan: 10 }.into();
    assert_eq!(position, PositionValue { pan: 10, tilt: 5 });
    let position = PositionValue::from(CameraState { tilt: -32768, pan: 32767 });
    assert_eq!(position, PositionValue { pan: 32767, tilt: -32768 });
}

#[test]
fn body_outside_sixteen_bits_is_cut_down() {
    let position: PositionValue = CameraState { tilt: -32769, pan: 40000 }.into();
    assert_eq!(position, PositionValue { pan: -25536, tilt: 32767 });
    let delta: PositionDelta = CameraState { tilt: 65536, pan: 65537 }.into();
    assert_eq!(delta, PositionDelta { pan: 1, tilt: 0 });
}

#[test]
fn body_reads_as_a_delta() {
    let delta = PositionDelta::from(CameraState { tilt: -2, pan: 5 });
    assert_eq!(delta, PositionDelta { pan: 5, tilt: -2 });
}

#[test]
fn position_survives_the_round_trip_through_a_body() {
    for position in [
        PositionValue { pan: 0, tilt: 0 },
        PositionValue { pan: -1, tilt: 1 },
        PositionValue { pan: i16::MAX, tilt: i16::MIN },
    ] {
        assert_eq!(PositionValue::from(CameraState::from(position)), position);
    }
}

#[test]
fn absolute_request_takes_the_body_as_target() {
    assert_eq!(
        body(10, 5).absolute(),
        Request::Update(RequestedUpdate::Absolute(PositionValue { pan: 10, tilt: 5 }))
    );
}

#[test]
fn relative_request_takes_the_body_as_delta() {
    assert_eq!(
        body(5, 0).relative(),
        Request::Update(RequestedUpdate::Relative(PositionDelta { pan: 5, tilt: 0 }))
    );
}

#[test]
fn reply_with_a_position_has_a_body() {
    assert_eq!(
        CameraStateResponse::for_reply(Reply::Position(PositionValue { pan: 10, tilt: 5 })),
        Some(CameraStateResponse { camera: CameraState { tilt: 5, pan: 10 } })
    );
}

#[test]
fn acknowledgement_has_no_body() {
    assert_eq!(CameraStateResponse::for_reply(Reply::Acknowledged), None);
}
