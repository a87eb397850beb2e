//! Message counters, the client gauge and the trailing window of
//! per-second message counts.
use vstd::prelude::*;

verus! {

/// The number of one-second buckets the throughput window keeps.
pub const WINDOW_LEN: usize = 30;

/// The last `n` elements of `s`, or all of `s` when it is shorter.
pub open spec fn keep_last<T>(s: Seq<T>, n: nat) -> Seq<T> {
    if s.len() <= n {
        s
    } else {
        s.subrange(s.len() - n, s.len() as int)
    }
}

/// Sum of the counts of a sequence of `(second, count)` buckets.
pub open spec fn window_sum(w: Seq<(u64, u64)>) -> int
    decreases w.len(),
{
    if w.len() == 0 {
        0
    } else {
        window_sum(w.drop_last()) + w.last().1
    }
}

/// Sum of a sequence of sizes.
pub open spec fn total_size(sizes: Seq<u64>) -> int
    decreases sizes.len(),
{
    if sizes.len() == 0 {
        0
    } else {
        total_size(sizes.drop_last()) + sizes.last()
    }
}

/// `n / d` rounded to the nearest integer, ties to the even neighbour.
pub open spec fn div_round_even(n: nat, d: nat) -> nat
    recommends
        d > 0,
{
    let q = n / d;
    let r = n % d;
    if 2 * r > d || (2 * r == d && q % 2 == 1) {
        q + 1
    } else {
        q
    }
}

/// The trailing average of a window in thousandths of a message per second:
/// the sum of its counts over `max(1, length)`, rounded to three decimals.
pub open spec fn average_milli(w: Seq<(u64, u64)>) -> nat {
    let d: nat = if w.len() == 0 { 1 } else { w.len() };
    div_round_even((window_sum(w) * 1000) as nat, d)
}

/// Process-wide counters of the relay.
pub struct Stats {
    /// Messages relayed on the text channel.
    pub msgs_total: u64,
    /// Bytes of payload relayed on the text channel.
    pub bytes_total: u64,
    /// Sessions currently open.
    pub ws_clients: u64,
    /// `(second, count)` buckets, oldest first.
    pub window: Vec<(u64, u64)>,
    /// Messages counted since the last rotation.
    pub sec_acc: u64,
}

/// A consistent read of the exported values.
#[derive(Clone, Copy, Debug, PartialEq, Eq)]
pub struct StatsSnapshot {
    pub msgs_total: u64,
    pub bytes_total: u64,
    pub ws_clients: u64,
    /// Trailing throughput in thousandths of a message per second.
    pub throughput_milli: u128,
}

/// `post` is `pre` after one message of `size` bytes was recorded.
pub open spec fn recorded(pre: Stats, size: u64, post: Stats) -> bool {
    &&& post.msgs_total == pre.msgs_total + 1
    &&& post.bytes_total == pre.bytes_total + size
    &&& post.sec_acc == pre.sec_acc + 1
    &&& post.ws_clients == pre.ws_clients
    &&& post.window@ == pre.window@
}

/// `post` is `pre` after the window was rotated at second `now`.
pub open spec fn rotated(pre: Stats, now: u64, post: Stats) -> bool {
    &&& post.window@ == keep_last(pre.window@.push((now, pre.sec_acc)), WINDOW_LEN as nat)
    &&& post.sec_acc == 0
    &&& post.msgs_total == pre.msgs_total
    &&& post.bytes_total == pre.bytes_total
    &&& post.ws_clients == pre.ws_clients
}

/// The buckets that a run of rotations appends: at step `i`, the second
/// `nows[i]` and the count the registry held before that rotation.
pub open spec fn appended(states: Seq<Stats>, nows: Seq<u64>) -> Seq<(u64, u64)> {
    Seq::new(nows.len(), |i: int| (nows[i], states[i].sec_acc))
}

proof fn lemma_keep_last_push<T>(s: Seq<T>, x: T, n: nat)
    ensures
        keep_last(keep_last(s, n).push(x), n) == keep_last(s.push(x), n),
{
    if s.len() > n {
        assert(keep_last(keep_last(s, n).push(x), n) =~= keep_last(s.push(x), n));
    }
}

proof fn lemma_keep_last_suffix<T>(a: Seq<T>, b: Seq<T>, n: nat)
    requires
        b.len() >= n,
    ensures
        keep_last(a + b, n) == keep_last(b, n),
{
    assert(keep_last(a + b, n) =~= keep_last(b, n));
}

/// Recording messages one at a time raises `msgs_total` by the number of
/// messages and `bytes_total` by the sum of their sizes (from a fresh
/// registry: to exactly those), so the totals do not depend on how the
/// calls were ordered.
pub proof fn lemma_totals_after_records(states: Seq<Stats>, sizes: Seq<u64>)
    requires
        states.len() == sizes.len() + 1,
        forall|i: int|
            0 <= i < sizes.len() ==> #[trigger] recorded(states[i], sizes[i], states[i + 1]),
    ensures
        states.last().msgs_total == states[0].msgs_total + sizes.len(),
        states.last().bytes_total == states[0].bytes_total + total_size(sizes),
    decreases sizes.len(),
{
    if sizes.len() > 0 {
        let k = sizes.len() - 1;
        let st = states.drop_last();
        let sz = sizes.drop_last();
        assert forall|i: int| 0 <= i < sz.len() implies #[trigger] recorded(st[i], sz[i], st[i + 1]) by {
            assert(recorded(states[i], sizes[i], states[i + 1]));
        }
        lemma_totals_after_records(st, sz);
        assert(recorded(states[k], sizes[k], states[k + 1]));
    }
}

/// Any run of rotations from a well-formed registry keeps the window within
/// its cap, and leaves in it the newest buckets of everything ever appended,
/// in the order of appending; after at least `WINDOW_LEN` rotations it holds
/// exactly the buckets of the last `WINDOW_LEN` rotations.
pub proof fn lemma_window_after_rotations(states: Seq<Stats>, nows: Seq<u64>)
    requires
        states.len() == nows.len() + 1,
        states[0].wf(),
        forall|i: int| 0 <= i < nows.len() ==> #[trigger] rotated(states[i], nows[i], states[i + 1]),
    ensures
        states.last().wf(),
        states.last().window@ == keep_last(
            states[0].window@ + appended(states, nows),
            WINDOW_LEN as nat,
        ),
        nows.len() >= WINDOW_LEN ==> states.last().window@ == keep_last(
            appended(states, nows),
            WINDOW_LEN as nat,
        ),
    decreases nows.len(),
{
    let w0 = states[0].window@;
    let n = WINDOW_LEN as nat;
    if nows.len() == 0 {
        assert(w0 + appended(states, nows) =~= w0);
    } else {
        let k = nows.len() - 1;
        let st = states.drop_last();
        let nw = nows.drop_last();
        assert forall|i: int| 0 <= i < nw.len() implies #[trigger] rotated(st[i], nw[i], st[i + 1]) by {
            assert(rotated(states[i], nows[i], states[i + 1]));
        }
        lemma_window_after_rotations(st, nw);
        assert(rotated(states[k], nows[k], states[k + 1]));
        let b = (nows[k], states[k].sec_acc);
        assert(appended(states, nows) =~= appended(st, nw).push(b));
        assert(w0 + appended(states, nows) =~= (w0 + appended(st, nw)).push(b));
        lemma_keep_last_push(w0 + appended(st, nw), b, n);
        if nows.len() >= WINDOW_LEN {
            lemma_keep_last_suffix(w0, appended(states, nows), n);
        }
    }
}

impl Stats {
    /// The window never holds more than its cap.
    pub open spec fn wf(&self) -> bool {
        self.window@.len() <= WINDOW_LEN
    }

    /// All counters at zero and an empty window.
    pub fn new() -> (r: Stats)
        ensures
            r.wf(),
            r.msgs_total == 0,
            r.bytes_total == 0,
            r.ws_clients == 0,
            r.sec_acc == 0,
            r.window@ == Seq::<(u64, u64)>::empty(),
    {
        Stats { msgs_total: 0, bytes_total: 0, ws_clients: 0, window: Vec::new(), sec_acc: 0 }
    }

    /// Counts one message of `size_bytes` bytes.
    pub fn record_message(&mut self, size_bytes: u64)
        requires
            old(self).msgs_total < u64::MAX,
            old(self).sec_acc < u64::MAX,
            old(self).bytes_total + size_bytes <= u64::MAX,
        ensures
            recorded(*old(self), size_bytes, *final(self)),
            old(self).wf() ==> final(self).wf(),
    {
        self.msgs_total = self.msgs_total + 1;
        self.bytes_total = self.bytes_total + size_bytes;
        self.sec_acc = self.sec_acc + 1;
    }

    /// Closes the current second: appends `(now, sec_acc)` to the window,
    /// evicting the oldest buckets beyond the cap, and resets `sec_acc`.
    pub fn rotate_window(&mut self, now: u64)
        requires
            old(self).wf(),
        ensures
            final(self).wf(),
            rotated(*old(self), now, *final(self)),
    {
        let cnt = self.sec_acc;
        self.sec_acc = 0;
        self.window.push((now, cnt));
        let ghost full = self.window@;
        if self.window.len() > WINDOW_LEN {
            self.window.remove(0);
        }
        assert(self.window@ == keep_last(full, WINDOW_LEN as nat));
    }

    /// One more open session.
    pub fn client_connected(&mut self)
        requires
            old(self).ws_clients < u64::MAX,
        ensures
            final(self).ws_clients == old(self).ws_clients + 1,
            final(self).msgs_total == old(self).msgs_total,
            final(self).bytes_total == old(self).bytes_total,
            final(self).sec_acc == old(self).sec_acc,
            final(self).window@ == old(self).window@,
    {
        self.ws_clients = self.ws_clients + 1;
    }

    /// One session fewer.
    pub fn client_disconnected(&mut self)
        requires
            old(self).ws_clients > 0,
        ensures
            final(self).ws_clients == old(self).ws_clients - 1,
            final(self).msgs_total == old(self).msgs_total,
            final(self).bytes_total == old(self).bytes_total,
            final(self).sec_acc == old(self).sec_acc,
            final(self).window@ == old(self).window@,
    {
        self.ws_clients = self.ws_clients - 1;
    }

    /// Sum of the window's counts over `max(1, length)`, in thousandths,
    /// rounded half to even; zero while the window is empty.
    pub fn average_throughput_milli(&self) -> (r: u128)
        requires
            self.wf(),
        ensures
            r == average_milli(self.window@),
            self.window@.len() == 0 ==> r == 0,
    {
        let n = self.window.len();
        let mut sum: u128 = 0;
        let mut i: usize = 0;
        while i < n
            invariant
                n == self.window@.len(),
                n <= WINDOW_LEN,
                i <= n,
                sum == window_sum(self.window@.subrange(0, i as int)),
                sum <= i * (u64::MAX as int),
            decreases n - i,
        {
            let c = self.window[i].1;
            assert(self.window@.subrange(0, i + 1).drop_last() == self.window@.subrange(0, i as int));
            proof {
                assert(sum + c <= (i + 1) * (u64::MAX as int)) by (nonlinear_arith)
                    requires
                        sum <= i * (u64::MAX as int),
                        c <= u64::MAX,
                ;
                assert((i + 1) * (u64::MAX as int) <= 31 * (u64::MAX as int)) by (nonlinear_arith)
                    requires
                        i < 31,
                ;
            }
            sum = sum + c as u128;
            i = i + 1;
        }
        assert(self.window@.subrange(0, n as int) == self.window@);
        proof {
            assert(sum * 1000 <= 30000 * (u64::MAX as int)) by (nonlinear_arith)
                requires
                    sum <= n * (u64::MAX as int),
                    n <= 30,
            ;
        }
        let d: u128 = if n == 0 { 1 } else { n as u128 };
        let scaled = sum * 1000;
        let q = scaled / d;
        let rem = scaled % d;
        if 2 * rem > d || (2 * rem == d && q % 2 == 1) {
            q + 1
        } else {
            q
        }
    }

    /// The exported values at this moment.
    pub fn snapshot(&self) -> (r: StatsSnapshot)
        requires
            self.wf(),
        ensures
            r.msgs_total == self.msgs_total,
            r.bytes_total == self.bytes_total,
            r.ws_clients == self.ws_clients,
            r.throughput_milli == average_milli(self.window@),
    {
        StatsSnapshot {
            msgs_total: self.msgs_total,
            bytes_total: self.bytes_total,
            ws_clients: self.ws_clients,
            throughput_milli: self.average_throughput_milli(),
        }
    }
}

} // verus!
