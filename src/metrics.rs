//! The plain-text metrics document.
use crate::stats::{average_milli, Stats, StatsSnapshot};
use crate::text::{decimal, fixed3, push_decimal, push_fixed3};
use vstd::prelude::*;

verus! {

/// The document for `s`: four series, each with a help line, a type line
/// and its value; the throughput with three decimals.
pub open spec fn metrics_text(s: StatsSnapshot) -> Seq<char> {
    "# HELP msgs_total Total messages received.\n# TYPE msgs_total counter\nmsgs_total "@
        + decimal(s.msgs_total as nat)
        + "\n# HELP bytes_total Total bytes received.\n# TYPE bytes_total counter\nbytes_total "@
        + decimal(s.bytes_total as nat)
        + "\n# HELP ws_clients Number of connected WS clients.\n# TYPE ws_clients gauge\nws_clients "@
        + decimal(s.ws_clients as nat)
        + "\n# HELP throughput_msgs_per_sec Average messages per second (last 30s).\n# TYPE throughput_msgs_per_sec gauge\nthroughput_msgs_per_sec "@
        + fixed3(s.throughput_milli as nat) + "\n"@
}

/// Writes the metrics document of a snapshot.
pub fn render_metrics(s: &StatsSnapshot) -> (r: String)
    ensures
        r@ == metrics_text(*s),
{
    let mut out = String::new();
    out.append("# HELP msgs_total Total messages received.\n# TYPE msgs_total counter\nmsgs_total ");
    push_decimal(&mut out, s.msgs_total as u128);
    out.append("\n# HELP bytes_total Total bytes received.\n# TYPE bytes_total counter\nbytes_total ");
    push_decimal(&mut out, s.bytes_total as u128);
    out.append("\n# HELP ws_clients Number of connected WS clients.\n# TYPE ws_clients gauge\nws_clients ");
    push_decimal(&mut out, s.ws_clients as u128);
    out.append("\n# HELP throughput_msgs_per_sec Average messages per second (last 30s).\n# TYPE throughput_msgs_per_sec gauge\nthroughput_msgs_per_sec ");
    push_fixed3(&mut out, s.throughput_milli);
    out.append("\n");
    assert(out@ =~= metrics_text(*s));
    out
}

/// The metrics document of the registry as it stands.
pub fn metrics(stats: &Stats) -> (r: String)
    requires
        stats.wf(),
    ensures
        r@ == metrics_text(
            StatsSnapshot {
                msgs_total: stats.msgs_total,
                bytes_total: stats.bytes_total,
                ws_clients: stats.ws_clients,
                throughput_milli: average_milli(stats.window@) as u128,
            },
        ),
{
    render_metrics(&stats.snapshot())
}

} // verus!
