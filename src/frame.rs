//! Frames on the serial line.
//!
//! Every frame starts with one length byte that counts the bytes after it.
//! A request frame is `[5, kind, token (4 bytes, little endian)]`.
//! A response frame is `[5, REJECTED_TAG, token]` when the device refuses the
//! request, and `[17, POSE_TAG, token, lower, upper, rotation]` when it
//! reports a pose, each axis as four little-endian bytes.
use vstd::prelude::*;

verus! {

/// Byte that selects the "read kinematic arm pose" action.
pub const GET_POSE_KIND: u8 = 0;

/// Tag of a response that carries a pose.
pub const POSE_TAG: u8 = 0;

/// Tag of a response by which the device rejects the request.
pub const REJECTED_TAG: u8 = 1;

/// Value of the length byte of a request frame and of a rejection frame.
pub const SHORT_BODY_LEN: u8 = 5;

/// Value of the length byte of a pose frame.
pub const POSE_BODY_LEN: u8 = 17;

/// The hardware action that a request asks for.
#[derive(Clone, Copy, Debug, PartialEq, Eq, Structural)]
pub enum RequestKind {
    GetKinematicArmPose,
}

/// A request to the device: what to do, and a token that the reply must echo.
#[derive(Clone, Copy, Debug, PartialEq, Eq, Structural)]
pub struct Request {
    pub kind: RequestKind,
    pub token: u32,
}

/// Three joint readings of the arm, each the bit pattern of an IEEE-754
/// single-precision number.
#[derive(Clone, Copy, Debug, PartialEq, Eq, Structural)]
pub struct Pose {
    pub lower_axis: u32,
    pub upper_axis: u32,
    pub rotation_axis: u32,
}

/// The payload of a reply that the device could satisfy.
#[derive(Clone, Copy, Debug, PartialEq, Eq, Structural)]
pub enum ResponseKind {
    KinematicArmPose(Pose),
}

/// A reply of the device: the token of the request it answers, and its
/// payload, or `None` where the device rejected the request.
#[derive(Clone, Copy, Debug, PartialEq, Eq, Structural)]
pub struct Response {
    pub token: u32,
    pub data: Option<ResponseKind>,
}

/// The four little-endian bytes of `x`.
pub open spec fn le32(x: u32) -> Seq<u8> {
    seq![x as u8, (x >> 8u32) as u8, (x >> 16u32) as u8, (x >> 24u32) as u8]
}

/// The number whose little-endian bytes are `b0`, `b1`, `b2`, `b3`.
pub open spec fn u32_of(b0: u8, b1: u8, b2: u8, b3: u8) -> u32 {
    (b0 as u32) | ((b1 as u32) << 8u32) | ((b2 as u32) << 16u32) | ((b3 as u32) << 24u32)
}

/// The number held by the four bytes of `s` from index `i` on.
pub open spec fn u32_at(s: Seq<u8>, i: int) -> u32 {
    u32_of(s[i], s[i + 1], s[i + 2], s[i + 3])
}

pub open spec fn kind_byte(k: RequestKind) -> u8 {
    match k {
        RequestKind::GetKinematicArmPose => GET_POSE_KIND,
    }
}

/// The frame of a request.
pub open spec fn request_frame(r: Request) -> Seq<u8> {
    seq![SHORT_BODY_LEN, kind_byte(r.kind)] + le32(r.token)
}

/// The frame of a response.
pub open spec fn response_frame(r: Response) -> Seq<u8> {
    match r.data {
        None => seq![SHORT_BODY_LEN, REJECTED_TAG] + le32(r.token),
        Some(ResponseKind::KinematicArmPose(p)) => seq![POSE_BODY_LEN, POSE_TAG] + le32(r.token)
            + le32(p.lower_axis) + le32(p.upper_axis) + le32(p.rotation_axis),
    }
}

/// The request that `s` is the frame of, if it is one.
pub open spec fn parse_request(s: Seq<u8>) -> Option<Request> {
    if s.len() == 6 && s[0] == SHORT_BODY_LEN && s[1] == GET_POSE_KIND {
        Some(Request { kind: RequestKind::GetKinematicArmPose, token: u32_at(s, 2) })
    } else {
        None
    }
}

/// The response that `s` is the frame of, if it is one.
pub open spec fn parse_response(s: Seq<u8>) -> Option<Response> {
    if s.len() == 6 && s[0] == SHORT_BODY_LEN && s[1] == REJECTED_TAG {
        Some(Response { token: u32_at(s, 2), data: None })
    } else if s.len() == 18 && s[0] == POSE_BODY_LEN && s[1] == POSE_TAG {
        Some(
            Response {
                token: u32_at(s, 2),
                data: Some(
                    ResponseKind::KinematicArmPose(
                        Pose {
                            lower_axis: u32_at(s, 6),
                            upper_axis: u32_at(s, 10),
                            rotation_axis: u32_at(s, 14),
                        },
                    ),
                ),
            },
        )
    } else {
        None
    }
}

/// Whether `s` holds at least one whole frame, as its first byte counts it.
pub open spec fn holds_whole_frame(s: Seq<u8>) -> bool {
    s.len() > 0 && s.len() >= 1 + s[0]
}

proof fn lemma_le32_inverse(x: u32)
    ensures
        u32_of(x as u8, (x >> 8u32) as u8, (x >> 16u32) as u8, (x >> 24u32) as u8) == x,
{
    assert(((x as u8) as u32) | ((((x >> 8u32) as u8) as u32) << 8u32) | ((((x >> 16u32) as u8)
        as u32) << 16u32) | ((((x >> 24u32) as u8) as u32) << 24u32) == x) by (bit_vector);
}

proof fn lemma_u32_at_le32(s: Seq<u8>, i: int, x: u32)
    requires
        0 <= i,
        i + 4 <= s.len(),
        s.subrange(i, i + 4) == le32(x),
    ensures
        u32_at(s, i) == x,
{
    assert(s[i] == le32(x)[0]);
    assert(s[i + 1] == le32(x)[1]);
    assert(s[i + 2] == le32(x)[2]);
    assert(s[i + 3] == le32(x)[3]);
    lemma_le32_inverse(x);
}

/// Decoding the frame of a request gives back that request: the device sees
/// the action that the caller asked for, with its token.
pub proof fn lemma_request_round_trip(r: Request)
    ensures
        parse_request(request_frame(r)) == Some(r),
{
    let s = request_frame(r);
    assert(s.subrange(2, 6) =~= le32(r.token));
    lemma_u32_at_le32(s, 2, r.token);
}

/// Decoding the frame of a response gives back that response.
pub proof fn lemma_response_round_trip(r: Response)
    ensures
        parse_response(response_frame(r)) == Some(r),
{
    let s = response_frame(r);
    match r.data {
        None => {
            assert(s.subrange(2, 6) =~= le32(r.token));
            lemma_u32_at_le32(s, 2, r.token);
        },
        Some(ResponseKind::KinematicArmPose(p)) => {
            assert(s.subrange(2, 6) =~= le32(r.token));
            assert(s.subrange(6, 10) =~= le32(p.lower_axis));
            assert(s.subrange(10, 14) =~= le32(p.upper_axis));
            assert(s.subrange(14, 18) =~= le32(p.rotation_axis));
            lemma_u32_at_le32(s, 2, r.token);
            lemma_u32_at_le32(s, 6, p.lower_axis);
            lemma_u32_at_le32(s, 10, p.upper_axis);
            lemma_u32_at_le32(s, 14, p.rotation_axis);
        },
    }
}

fn push_le32(out: &mut Vec<u8>, x: u32)
    ensures
        final(out)@ == old(out)@ + le32(x),
{
    out.push(x as u8);
    out.push((x >> 8u32) as u8);
    out.push((x >> 16u32) as u8);
    out.push((x >> 24u32) as u8);
    assert(final(out)@ =~= old(out)@ + le32(x));
}

fn read_le32(s: &[u8], i: usize) -> (r: u32)
    requires
        i + 4 <= s@.len(),
    ensures
        r == u32_at(s@, i as int),
{
    (s[i] as u32) | ((s[i + 1] as u32) << 8u32) | ((s[i + 2] as u32) << 16u32) | ((s[i + 3]
        as u32) << 24u32)
}

/// The frame that carries `r` to the device.
pub fn encode_request(r: &Request) -> (out: Vec<u8>)
    ensures
        out@ == request_frame(*r),
{
    let mut out: Vec<u8> = Vec::new();
    out.push(SHORT_BODY_LEN);
    match r.kind {
        RequestKind::GetKinematicArmPose => out.push(GET_POSE_KIND),
    }
    push_le32(&mut out, r.token);
    assert(out@ =~= request_frame(*r));
    out
}

/// The request that `bytes` is the frame of; `None` where it is no request
/// frame.
pub fn decode_request(bytes: &[u8]) -> (r: Option<Request>)
    ensures
        r == parse_request(bytes@),
{
    if bytes.len() == 6 && bytes[0] == SHORT_BODY_LEN && bytes[1] == GET_POSE_KIND {
        Some(Request { kind: RequestKind::GetKinematicArmPose, token: read_le32(bytes, 2) })
    } else {
        None
    }
}

/// The frame by which the device sends `r`.
pub fn encode_response(r: &Response) -> (out: Vec<u8>)
    ensures
        out@ == response_frame(*r),
{
    let mut out: Vec<u8> = Vec::new();
    match r.data {
        None => {
            out.push(SHORT_BODY_LEN);
            out.push(REJECTED_TAG);
            push_le32(&mut out, r.token);
        },
        Some(ResponseKind::KinematicArmPose(p)) => {
            out.push(POSE_BODY_LEN);
            out.push(POSE_TAG);
            push_le32(&mut out, r.token);
            push_le32(&mut out, p.lower_axis);
            push_le32(&mut out, p.upper_axis);
            push_le32(&mut out, p.rotation_axis);
        },
    }
    assert(out@ =~= response_frame(*r));
    out
}

/// The response that `bytes` is the frame of; `None` where it is no
/// response frame.
pub fn decode_response(bytes: &[u8]) -> (r: Option<Response>)
    ensures
        r == parse_response(bytes@),
{
    if bytes.len() == 6 && bytes[0] == SHORT_BODY_LEN && bytes[1] == REJECTED_TAG {
        Some(Response { token: read_le32(bytes, 2), data: None })
    } else if bytes.len() == 18 && bytes[0] == POSE_BODY_LEN && bytes[1] == POSE_TAG {
        let pose = Pose {
            lower_axis: read_le32(bytes, 6),
            upper_axis: read_le32(bytes, 10),
            rotation_axis: read_le32(bytes, 14),
        };
        Some(Response { token: read_le32(bytes, 2), data: Some(ResponseKind::KinematicArmPose(pose)) })
    } else {
        None
    }
}

/// Whether `bytes` holds at least one whole frame.
pub fn has_whole_frame(bytes: &[u8]) -> (r: bool)
    ensures
        r == holds_whole_frame(bytes@),
{
    bytes.len() > 0 && bytes.len() >= 1 + bytes[0] as usize
}

} // verus!
