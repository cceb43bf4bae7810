//! The arm-state endpoint's side of the bridge: it builds the request for
//! the driver and projects the driver's outcome onto the reply.
use vstd::prelude::*;
use crate::driver::DriverError;
use crate::frame::{Pose, Request, RequestKind, Response, ResponseKind};

verus! {

/// The reply of the arm-state endpoint. The axes are the bit patterns of
/// IEEE-754 single-precision numbers.
#[derive(Clone, Copy, Debug, PartialEq, Eq, Structural)]
pub struct ArmState {
    pub lower_axis: u32,
    pub upper_axis: u32,
    pub rotation: u32,
    /// The gripper's state; set only in replies that concern the gripper.
    pub gripper: Option<u32>,
    pub driving_arm: bool,
    pub driving_gripper: bool,
}

/// Why the endpoint aborted a call. No detail of the serial exchange
/// crosses the network boundary.
#[derive(Clone, Copy, Debug, PartialEq, Eq, Structural)]
pub enum Abort {
    /// The exchange with the hardware failed.
    HardwareFailed,
    /// The hardware answered with something other than a pose.
    InvalidResponse,
}

impl Abort {
    /// The human-readable reason that accompanies the aborted status.
    pub fn reason(&self) -> (r: &'static str)
        ensures
            *self == Abort::HardwareFailed ==> r@ == "failed to interrogate model arm."@,
            *self == Abort::InvalidResponse ==> r@ == "invalid response from model arm hardware."@,
    {
        proof {
            reveal_strlit("failed to interrogate model arm.");
            reveal_strlit("invalid response from model arm hardware.");
        }
        match self {
            Abort::HardwareFailed => "failed to interrogate model arm.",
            Abort::InvalidResponse => "invalid response from model arm hardware.",
        }
    }
}

/// The reply for a pose reported by the arm.
pub open spec fn arm_state_of(p: Pose) -> ArmState {
    ArmState {
        lower_axis: p.lower_axis,
        upper_axis: p.upper_axis,
        rotation: p.rotation_axis,
        gripper: None,
        driving_arm: true,
        driving_gripper: false,
    }
}

/// The endpoint's reply for the outcome of an exchange.
pub open spec fn reply_of(o: Result<Response, DriverError>) -> Result<ArmState, Abort> {
    match o {
        Err(_) => Err(Abort::HardwareFailed),
        Ok(r) => match r.data {
            Some(ResponseKind::KinematicArmPose(p)) => Ok(arm_state_of(p)),
            None => Err(Abort::InvalidResponse),
        },
    }
}

/// The request that reads the arm's pose, correlated by `token`.
pub fn pose_request(token: u32) -> (r: Request)
    ensures
        r == (Request { kind: RequestKind::GetKinematicArmPose, token }),
{
    Request { kind: RequestKind::GetKinematicArmPose, token }
}

/// Relies on rand::random: a fresh value drawn from the thread-local
/// generator; nothing is known of it.
#[verifier::external_body]
fn random_token() -> (r: u32) {
    rand::random::<u32>()
}

/// A request that reads the arm's pose, with a freshly drawn token.
pub fn new_pose_request() -> (r: Request)
    ensures
        r.kind == RequestKind::GetKinematicArmPose,
{
    pose_request(random_token())
}

/// Projects the outcome of an exchange onto the endpoint's reply: a pose
/// gives the arm's state; every driver error collapses into one aborted
/// status, as does a reply without a pose.
pub fn arm_state_reply(outcome: Result<Response, DriverError>) -> (r: Result<ArmState, Abort>)
    ensures
        r == reply_of(outcome),
{
    match outcome {
        Err(_) => Err(Abort::HardwareFailed),
        Ok(resp) => match resp.data {
            Some(ResponseKind::KinematicArmPose(p)) => Ok(
                ArmState {
                    lower_axis: p.lower_axis,
                    upper_axis: p.upper_axis,
                    rotation: p.rotation_axis,
                    gripper: None,
                    driving_arm: true,
                    driving_gripper: false,
                },
            ),
            None => Err(Abort::InvalidResponse),
        },
    }
}

} // verus!
