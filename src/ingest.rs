//! Turning events from the message bus into frames: the text channel is
//! relayed and counted, the pose channel is decoded and relayed uncounted,
//! anything else is ignored. A payload that cannot be decoded is dropped.
//! The caller publishes the frame that comes out.
use crate::frame::Frame;
use crate::json::{json_number_member, json_parses, json_u64_member, number_member, parses_json, u64_member};
use crate::stats::{recorded, Stats};
use vstd::prelude::*;
use vstd::utf8::encode_utf8;

verus! {

/// An event from the bus: the topic it was published on and its payload.
pub struct Message<T> {
    pub topic: String,
    pub payload: T,
}

/// The topic of generic text messages.
pub open spec fn chatter_topic() -> Seq<char> {
    "chatter"@
}

/// The topic of pose telemetry.
pub open spec fn pose_topic() -> Seq<char> {
    "robot_pose"@
}

/// The JSON text of a coordinate that is absent or not a number.
pub open spec fn zero_coord() -> Seq<char> {
    "0.0"@
}

/// The byte length of a payload.
pub open spec fn payload_size(p: String) -> usize {
    encode_utf8(p@).len() as usize
}

/// A decoded coordinate, or the text of zero when there is none.
pub open spec fn coord_or_zero(c: Option<Seq<char>>) -> Seq<char> {
    match c {
        Some(t) => t,
        None => zero_coord(),
    }
}

/// `f` is the pose frame of the JSON document `p` received at `now_ms`.
pub open spec fn is_pose_frame_of(f: Frame, p: Seq<char>, now_ms: u128) -> bool {
    f matches Frame::Robot { seq, x, y, theta, ts_ms, recv_ts_ms } && seq == (match json_u64_member(
        p,
        "seq"@,
    ) {
        Some(n) => n,
        None => 0u64,
    }) && x@ == coord_or_zero(json_number_member(p, "x"@)) && y@ == coord_or_zero(
        json_number_member(p, "y"@),
    ) && theta@ == coord_or_zero(json_number_member(p, "theta"@)) && ts_ms == now_ms
        && recv_ts_ms == now_ms
}

/// The text frame for `payload`, received at `now_ms`.
pub open spec fn msg_frame_of(topic: String, payload: String, now_ms: u128) -> Frame {
    Frame::Msg {
        topic,
        seq: 0,
        ts_ms: now_ms,
        recv_ts_ms: now_ms,
        size_bytes: payload_size(payload),
        data: payload,
    }
}

/// The pose frame built from the fields a payload held: each absent or
/// malformed one counts as zero.
pub fn robot_frame(
    seq: Option<u64>,
    x: Option<String>,
    y: Option<String>,
    theta: Option<String>,
    now_ms: u128,
) -> (r: Frame)
    ensures
        r matches Frame::Robot { seq: s, x: rx, y: ry, theta: rt, ts_ms, recv_ts_ms } && s == (
        match seq {
            Some(n) => n,
            None => 0u64,
        }) && rx@ == (match x {
            Some(t) => t@,
            None => zero_coord(),
        }) && ry@ == (match y {
            Some(t) => t@,
            None => zero_coord(),
        }) && rt@ == (match theta {
            Some(t) => t@,
            None => zero_coord(),
        }) && ts_ms == now_ms && recv_ts_ms == now_ms,
{
    Frame::Robot {
        seq: match seq {
            Some(n) => n,
            None => 0,
        },
        x: coord_text_or_zero(x),
        y: coord_text_or_zero(y),
        theta: coord_text_or_zero(theta),
        ts_ms: now_ms,
        recv_ts_ms: now_ms,
    }
}

fn coord_text_or_zero(c: Option<String>) -> (r: String)
    ensures
        r@ == match c {
            Some(t) => t@,
            None => zero_coord(),
        },
{
    match c {
        Some(t) => t,
        None => String::from_str("0.0"),
    }
}

/// Decodes a pose payload: `None` when it is not JSON at all, else the
/// robot frame of its `seq`, `x`, `y` and `theta` members.
pub fn decode_pose(payload: &String, now_ms: u128) -> (r: Option<Frame>)
    ensures
        r is Some <==> json_parses(payload@),
        r matches Some(f) ==> is_pose_frame_of(f, payload@, now_ms),
{
    let p = payload.as_str();
    if !parses_json(p) {
        return None;
    }
    let seq = u64_member(p, "seq");
    let x = number_member(p, "x");
    let y = number_member(p, "y");
    let theta = number_member(p, "theta");
    let f = robot_frame(seq, x, y, theta, now_ms);
    Some(f)
}

/// Handles one bus event received at `now_ms` and returns the frame to
/// publish, if any. A text message is counted and relayed; a pose that
/// parses is relayed without being counted; nothing else changes anything.
pub fn ingest(stats: &mut Stats, event: &Message<String>, now_ms: u128) -> (r: Option<Frame>)
    requires
        old(stats).wf(),
        event.topic@ == chatter_topic() ==> old(stats).msgs_total < u64::MAX && old(stats).sec_acc
            < u64::MAX && old(stats).bytes_total + payload_size(event.payload) <= u64::MAX,
    ensures
        final(stats).wf(),
        event.topic@ == chatter_topic() ==> r == Some(msg_frame_of(event.topic, event.payload, now_ms)),
        event.topic@ == chatter_topic() ==> recorded(
            *old(stats),
            payload_size(event.payload) as u64,
            *final(stats),
        ),
        event.topic@ == pose_topic() ==> (r is Some <==> json_parses(event.payload@)),
        event.topic@ == pose_topic() ==> (r matches Some(f) ==> is_pose_frame_of(
            f,
            event.payload@,
            now_ms,
        )),
        event.topic@ != chatter_topic() ==> *final(stats) == *old(stats),
        event.topic@ != chatter_topic() && event.topic@ != pose_topic() ==> r is None,
{
    proof {
        reveal_strlit("chatter");
        reveal_strlit("robot_pose");
    }
    let chatter = String::from_str("chatter");
    let pose = String::from_str("robot_pose");
    assert(chatter_topic() != pose_topic()) by {
        assert(chatter_topic().len() != pose_topic().len());
    }
    if event.topic.eq(&chatter) {
        let size = event.payload.as_str().len();
        stats.record_message(size as u64);
        Some(
            Frame::Msg {
                topic: event.topic.clone(),
                seq: 0,
                ts_ms: now_ms,
                recv_ts_ms: now_ms,
                size_bytes: size,
                data: event.payload.clone(),
            },
        )
    } else if event.topic.eq(&pose) {
        decode_pose(&event.payload, now_ms)
    } else {
        None
    }
}

} // verus!
