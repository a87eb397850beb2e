//! The JSON documents pushed to clients, one shape per kind.
use crate::json::{json_quoted, quote_json};
use crate::text::{decimal, fixed3, push_decimal, push_fixed3};
use vstd::prelude::*;

verus! {

/// One document for the clients. Times are milliseconds since the epoch and
/// are written as seconds with three decimals. Pose coordinates are held as
/// the JSON number text they are written with.
#[derive(Clone, Debug, PartialEq, Eq)]
pub enum Frame {
    Msg { topic: String, seq: u64, ts_ms: u128, recv_ts_ms: u128, size_bytes: usize, data: String },
    Robot { seq: u64, x: String, y: String, theta: String, ts_ms: u128, recv_ts_ms: u128 },
    Status { connected: bool },
    Qos { reliability: String, durability: String, history: String, depth: u32 },
}

/// The text of `f` as clients receive it.
pub open spec fn frame_text(f: Frame) -> Seq<char> {
    match f {
        Frame::Msg { topic, seq, ts_ms, recv_ts_ms, size_bytes, data } => "{\"type\":\"msg\",\"topic\":"@
            + json_quoted(topic@) + ",\"seq\":"@ + decimal(seq as nat) + ",\"ts\":"@ + fixed3(
            ts_ms as nat,
        ) + ",\"recv_ts\":"@ + fixed3(recv_ts_ms as nat) + ",\"size_bytes\":"@ + decimal(
            size_bytes as nat,
        ) + ",\"data\":"@ + json_quoted(data@) + "}"@,
        Frame::Robot { seq, x, y, theta, ts_ms, recv_ts_ms } => "{\"type\":\"robot\",\"seq\":"@
            + decimal(seq as nat) + ",\"x\":"@ + x@ + ",\"y\":"@ + y@ + ",\"theta\":"@ + theta@
            + ",\"ts\":"@ + fixed3(ts_ms as nat) + ",\"recv_ts\":"@ + fixed3(recv_ts_ms as nat)
            + "}"@,
        Frame::Status { connected } => "{\"type\":\"status\",\"connected\":"@ + (if connected {
            "true"@
        } else {
            "false"@
        }) + "}"@,
        Frame::Qos { reliability, durability, history, depth } => "{\"reliability\":"@
            + json_quoted(reliability@) + ",\"durability\":"@ + json_quoted(durability@)
            + ",\"history\":"@ + json_quoted(history@) + ",\"depth\":"@ + decimal(depth as nat)
            + "}"@,
    }
}

/// The status document a client gets when its session opens.
pub fn status_frame() -> (r: Frame)
    ensures
        r == (Frame::Status { connected: true }),
{
    Frame::Status { connected: true }
}

/// The fixed delivery settings of the relayed topics.
pub fn qos_frame() -> (r: Frame)
    ensures
        r matches Frame::Qos { reliability, durability, history, depth } && reliability@
            == "Reliable"@ && durability@ == "Volatile"@ && history@ == "KeepLast"@ && depth == 10,
{
    Frame::Qos {
        reliability: String::from_str("Reliable"),
        durability: String::from_str("Volatile"),
        history: String::from_str("KeepLast"),
        depth: 10,
    }
}

/// Writes `f` as JSON.
pub fn render_frame(f: &Frame) -> (r: String)
    ensures
        r@ == frame_text(*f),
{
    let mut out = String::new();
    match f {
        Frame::Msg { topic, seq, ts_ms, recv_ts_ms, size_bytes, data } => {
            out.append("{\"type\":\"msg\",\"topic\":");
            out.append(quote_json(topic.as_str()).as_str());
            out.append(",\"seq\":");
            push_decimal(&mut out, *seq as u128);
            out.append(",\"ts\":");
            push_fixed3(&mut out, *ts_ms);
            out.append(",\"recv_ts\":");
            push_fixed3(&mut out, *recv_ts_ms);
            out.append(",\"size_bytes\":");
            push_decimal(&mut out, *size_bytes as u128);
            out.append(",\"data\":");
            out.append(quote_json(data.as_str()).as_str());
            out.append("}");
        },
        Frame::Robot { seq, x, y, theta, ts_ms, recv_ts_ms } => {
            out.append("{\"type\":\"robot\",\"seq\":");
            push_decimal(&mut out, *seq as u128);
            out.append(",\"x\":");
            out.append(x.as_str());
            out.append(",\"y\":");
            out.append(y.as_str());
            out.append(",\"theta\":");
            out.append(theta.as_str());
            out.append(",\"ts\":");
            push_fixed3(&mut out, *ts_ms);
            out.append(",\"recv_ts\":");
            push_fixed3(&mut out, *recv_ts_ms);
            out.append("}");
        },
        Frame::Status { connected } => {
            out.append("{\"type\":\"status\",\"connected\":");
            if *connected {
                out.append("true");
            } else {
                out.append("false");
            }
            out.append("}");
        },
        Frame::Qos { reliability, durability, history, depth } => {
            out.append("{\"reliability\":");
            out.append(quote_json(reliability.as_str()).as_str());
            out.append(",\"durability\":");
            out.append(quote_json(durability.as_str()).as_str());
            out.append(",\"history\":");
            out.append(quote_json(history.as_str()).as_str());
            out.append(",\"depth\":");
            push_decimal(&mut out, *depth as u128);
            out.append("}");
        },
    }
    assert(out@ =~= frame_text(*f));
    out
}

} // verus!
