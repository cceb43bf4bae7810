use arm_bridge::adapter::{arm_state_reply, new_pose_request, pose_request, Abort, ArmState};
use arm_bridge::driver::{resolve, Action, Driver, DriverError, Event};
use arm_bridge::frame::{
    decode_request, decode_response, encode_request, encode_response, has_whole_frame, Pose,
    Request, RequestKind, Response, ResponseKind,
};

fn pose(lower: f32, upper: f32, rotation: f32) -> Pose {
    Pose {
        lower_axis: lower.to_bits(),
        upper_axis: upper.to_bits(),
        rotation_axis: rotation.to_bits(),
    }
}

/// Starts an exchange for `req` and returns the frame written to the wire.
fn send(driver: &mut Driver, req: Request) -> (Vec<u8>, bool) {
    match driver.begin(req) {
        Some(Action::Send { frame, discard_input }) => {
            match driver.step(Event::Sent) {
                Some(Action::Read) => {}
                _ => panic!("expected a read after the write"),
            }
            (frame, discard_input)
        }
        _ => panic!("expected a send"),
    }
}

fn finish(action: Option<Action>) -> Result<Response, DriverError> {
    match action {
        Some(Action::Finish(o)) => o,
        _ => panic!("expected the exchange to finish"),
    }
}

/// A mock device: answers a pose request with `p`, echoing its token.
fn device_reply(frame: &[u8], p: Option<Pose>) -> Vec<u8> {
    let req = decode_request(frame).expect("device cannot decode the request");
    assert_eq!(req.kind, RequestKind::GetKinematicArmPose);
    encode_response(&Response { token: req.token, data: p.map(ResponseKind::KinematicArmPose) })
}

#[test]
fn request_frame_layout() {
    let r = pose_request(0x0403_0201);
    assert_eq!(encode_request(&r), vec![5, 0, 1, 2, 3, 4]);
}

#[test]
fn response_frame_layout() {
    let rejected = Response { token: 0x0A0B_0C0D, data: None };
    assert_eq!(encode_response(&rejected), vec![5, 1, 0x0D, 0x0C, 0x0B, 0x0A]);
    let p = Pose { lower_axis: 1, upper_axis: 0x100, rotation_axis: 0xFFFF_FFFF };
    let with_pose = Response { token: 7, data: Some(ResponseKind::KinematicArmPose(p)) };
    assert_eq!(
        encode_response(&with_pose),
        vec![17, 0, 7, 0, 0, 0, 1, 0, 0, 0, 0, 1, 0, 0, 255, 255, 255, 255]
    );
}

#[test]
fn request_round_trip_keeps_action_kind() {
    for token in [0u32, 1, 0x1234_5678, u32::MAX] {
        let r = pose_request(token);
        let decoded = decode_request(&encode_request(&r)).unwrap();
        assert_eq!(decoded.kind, RequestKind::GetKinematicArmPose);
        assert_eq!(decoded, r);
    }
}

#[test]
fn response_round_trip() {
    let p = pose(1.0, -2.5, 3.25);
    for data in [None, Some(ResponseKind::KinematicArmPose(p))] {
        let r = Response { token: 0xDEAD_BEEF, data };
        assert_eq!(decode_response(&encode_response(&r)), Some(r));
    }
}

#[test]
fn malformed_frames_do_not_decode() {
    assert_eq!(decode_response(&[]), None);
    assert_eq!(decode_response(&[5, 2, 0, 0, 0, 0]), None);
    assert_eq!(decode_response(&[5, 0, 0, 0, 0, 0]), None);
    assert_eq!(decode_response(&[5, 1, 0, 0, 0]), None);
    assert_eq!(decode_request(&[5, 1, 0, 0, 0, 0]), None);
    assert_eq!(decode_request(&[4, 0, 0, 0, 0, 0]), None);
}

#[test]
fn whole_frame_detection() {
    assert!(!has_whole_frame(&[]));
    assert!(!has_whole_frame(&[5, 1, 0]));
    assert!(has_whole_frame(&[5, 1, 0, 0, 0, 0]));
    assert!(has_whole_frame(&[0]));
}

#[test]
fn successful_pose_exchange() {
    let mut driver = Driver::new();
    let req = pose_request(42);
    let (frame, discard) = send(&mut driver, req);
    assert!(!discard);
    assert!(driver.is_busy());
    let reply = device_reply(&frame, Some(pose(1.0, 2.0, 3.0)));
    let out = finish(driver.step(Event::Received(reply))).unwrap();
    assert_eq!(out.token, 42);
    assert_eq!(out.data, Some(ResponseKind::KinematicArmPose(pose(1.0, 2.0, 3.0))));
    assert!(!driver.is_busy());
}

#[test]
fn reply_split_over_reads() {
    let mut driver = Driver::new();
    let (frame, _) = send(&mut driver, pose_request(9));
    let reply = device_reply(&frame, Some(pose(0.5, 0.25, 0.125)));
    let (head, tail) = reply.split_at(7);
    match driver.step(Event::Received(head.to_vec())) {
        Some(Action::Read) => {}
        _ => panic!("expected another read"),
    }
    assert!(driver.is_busy());
    let out = finish(driver.step(Event::Received(tail.to_vec())));
    assert_eq!(out.unwrap().data, Some(ResponseKind::KinematicArmPose(pose(0.5, 0.25, 0.125))));
}

#[test]
fn zero_bytes_is_protocol_error() {
    let mut driver = Driver::new();
    send(&mut driver, pose_request(1));
    assert_eq!(finish(driver.step(Event::Received(vec![]))), Err(DriverError::Protocol));
    assert!(!driver.is_busy());
}

#[test]
fn malformed_frame_is_protocol_error() {
    let mut driver = Driver::new();
    send(&mut driver, pose_request(1));
    let out = finish(driver.step(Event::Received(vec![5, 9, 1, 0, 0, 0])));
    assert_eq!(out, Err(DriverError::Protocol));
}

#[test]
fn trailing_bytes_are_protocol_error() {
    let mut driver = Driver::new();
    send(&mut driver, pose_request(1));
    let out = finish(driver.step(Event::Received(vec![5, 1, 1, 0, 0, 0, 0])));
    assert_eq!(out, Err(DriverError::Protocol));
}

#[test]
fn rejection_is_protocol_error() {
    let mut driver = Driver::new();
    let (frame, _) = send(&mut driver, pose_request(77));
    let reply = device_reply(&frame, None);
    assert_eq!(finish(driver.step(Event::Received(reply))), Err(DriverError::Protocol));
}

#[test]
fn stale_token_is_protocol_error() {
    let mut driver = Driver::new();
    send(&mut driver, pose_request(5));
    let stale = encode_response(&Response {
        token: 4,
        data: Some(ResponseKind::KinematicArmPose(pose(1.0, 1.0, 1.0))),
    });
    assert_eq!(finish(driver.step(Event::Received(stale))), Err(DriverError::Protocol));
}

#[test]
fn transport_failure() {
    let mut driver = Driver::new();
    send(&mut driver, pose_request(5));
    assert_eq!(finish(driver.step(Event::TransportFailed)), Err(DriverError::Transport));
    assert!(!driver.is_busy());
}

#[test]
fn timeout_frees_channel_and_resynchronizes() {
    let mut driver = Driver::new();
    send(&mut driver, pose_request(1));
    driver.step(Event::Received(vec![17, 0, 1]));
    assert_eq!(finish(driver.step(Event::TimedOut)), Err(DriverError::Timeout));
    assert!(!driver.is_busy());
    let next = pose_request(2);
    let (frame, discard) = send(&mut driver, next);
    assert!(discard);
    assert_eq!(frame, encode_request(&next));
    let reply = device_reply(&frame, Some(pose(4.0, 5.0, 6.0)));
    assert!(finish(driver.step(Event::Received(reply))).is_ok());
    let (_, discard) = send(&mut driver, pose_request(3));
    assert!(!discard);
}

#[test]
fn second_request_waits_for_first() {
    let mut driver = Driver::new();
    let (first, _) = send(&mut driver, pose_request(1));
    assert!(driver.begin(pose_request(2)).is_none());
    match driver.step(Event::Sent) {
        Some(Action::Read) => {}
        _ => panic!("no write may happen while a request is in flight"),
    }
    assert!(driver.begin(pose_request(2)).is_none());
    let reply = device_reply(&first, Some(pose(1.0, 2.0, 3.0)));
    assert_eq!(finish(driver.step(Event::Received(reply))).unwrap().token, 1);
    let (second, _) = send(&mut driver, pose_request(2));
    assert_eq!(decode_request(&second).unwrap().token, 2);
}

#[test]
fn idle_driver_ignores_events() {
    let mut driver = Driver::new();
    assert!(driver.step(Event::Sent).is_none());
    assert!(driver.step(Event::Received(vec![5, 1, 0, 0, 0, 0])).is_none());
    assert!(!driver.is_busy());
}

#[test]
fn resolve_checks_token_and_payload() {
    let req = pose_request(3);
    let good = Response { token: 3, data: Some(ResponseKind::KinematicArmPose(pose(1.0, 2.0, 3.0))) };
    assert_eq!(resolve(&req, &encode_response(&good)), Ok(good));
    let rejected = Response { token: 3, data: None };
    assert_eq!(resolve(&req, &encode_response(&rejected)), Err(DriverError::Protocol));
    let other = Response { token: 4, ..good };
    assert_eq!(resolve(&req, &encode_response(&other)), Err(DriverError::Protocol));
    assert_eq!(resolve(&req, &[]), Err(DriverError::Protocol));
}

#[test]
fn end_to_end_arm_state() {
    let mut driver = Driver::new();
    let req = new_pose_request();
    let (frame, _) = send(&mut driver, req);
    let reply = device_reply(&frame, Some(pose(1.0, 2.0, 3.0)));
    let state = arm_state_reply(finish(driver.step(Event::Received(reply)))).unwrap();
    assert_eq!(f32::from_bits(state.lower_axis), 1.0);
    assert_eq!(f32::from_bits(state.upper_axis), 2.0);
    assert_eq!(f32::from_bits(state.rotation), 3.0);
    assert_eq!(state.gripper, None);
    assert!(state.driving_arm);
    assert!(!state.driving_gripper);
}

#[test]
fn end_to_end_rejection_aborts() {
    let mut driver = Driver::new();
    let (frame, _) = send(&mut driver, new_pose_request());
    let reply = device_reply(&frame, None);
    let out: Result<ArmState, Abort> = arm_state_reply(finish(driver.step(Event::Received(reply))));
    assert_eq!(out, Err(Abort::HardwareFailed));
    assert_eq!(out.unwrap_err().reason(), "failed to interrogate model arm.");
}

#[test]
fn every_driver_error_aborts() {
    for e in [DriverError::Transport, DriverError::Protocol, DriverError::Timeout] {
        assert_eq!(arm_state_reply(Err(e)), Err(Abort::HardwareFailed));
    }
}

#[test]
fn reply_without_pose_is_invalid() {
    let out = arm_state_reply(Ok(Response { token: 1, data: None }));
    assert_eq!(out, Err(Abort::InvalidResponse));
    assert_eq!(Abort::InvalidResponse.reason(), "invalid response from model arm hardware.");
}

#[test]
fn fresh_requests_read_the_pose() {
    let a = new_pose_request();
    let b = new_pose_request();
    assert_eq!(a.kind, RequestKind::GetKinematicArmPose);
    assert_eq!(b.kind, RequestKind::GetKinematicArmPose);
}
