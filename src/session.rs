//! One client's life: admission, the status document, streaming from its
//! broadcast receiver, and closing. The transport awaits each read of the
//! receiver, hands the outcome to the session, and performs the action that
//! comes back.
use crate::auth::AuthDecision;
use crate::frame::{frame_text, render_frame, status_frame, Frame};
use crate::stats::Stats;
use vstd::prelude::*;

verus! {

/// Where a session stands. A denied client never gets a session, so a
/// session starts out `Authenticated`.
#[derive(Clone, Copy, Debug, PartialEq, Eq, Structural)]
pub enum SessionState {
    Authenticated,
    Streaming,
    Closed,
}

/// The client failed the shared-secret check: the upgrade is refused.
#[derive(Clone, Copy, Debug, PartialEq, Eq, Structural)]
pub struct AuthError;

/// The outcome of one read of the session's broadcast receiver.
#[derive(Debug, PartialEq, Eq)]
pub enum Recv {
    /// The next frame in publish order.
    Frame(String),
    /// This many frames were dropped before the session could read them.
    Lagged(u64),
    /// The producer side is closed and every buffered frame was read.
    Closed,
}

/// What the transport does next for a streaming session.
#[derive(Debug, PartialEq, Eq)]
pub enum Action {
    /// Send this document to the client.
    Send(String),
    /// Frames were dropped while the client lagged; read again.
    Skip(u64),
    /// The producer is gone and everything was read; close the session.
    Close,
}

/// The receiver read that an action answers.
pub open spec fn read_of(a: Action) -> Recv {
    match a {
        Action::Send(f) => Recv::Frame(f),
        Action::Skip(n) => Recv::Lagged(n),
        Action::Close => Recv::Closed,
    }
}

/// The frames among a run of reads, in the order read.
pub open spec fn frames_read(reads: Seq<Recv>) -> Seq<String>
    decreases reads.len(),
{
    if reads.len() == 0 {
        Seq::empty()
    } else {
        match reads.last() {
            Recv::Frame(f) => frames_read(reads.drop_last()).push(f),
            _ => frames_read(reads.drop_last()),
        }
    }
}

/// The documents a run of actions sends, in order.
pub open spec fn frames_sent(actions: Seq<Action>) -> Seq<String>
    decreases actions.len(),
{
    if actions.len() == 0 {
        Seq::empty()
    } else {
        match actions.last() {
            Action::Send(f) => frames_sent(actions.drop_last()).push(f),
            _ => frames_sent(actions.drop_last()),
        }
    }
}

/// A streaming session sends exactly the frames its receiver handed it,
/// verbatim, each once and in the order read: a lag or the close sends
/// nothing, and nothing is sent that was not read.
pub proof fn lemma_forwards_reads(reads: Seq<Recv>, actions: Seq<Action>)
    requires
        reads.len() == actions.len(),
        forall|i: int| 0 <= i < reads.len() ==> read_of(#[trigger] actions[i]) == reads[i],
    ensures
        frames_sent(actions) == frames_read(reads),
    decreases reads.len(),
{
    if reads.len() > 0 {
        let k = reads.len() - 1;
        assert(read_of(actions[k]) == reads[k]);
        let rs = reads.drop_last();
        let acts = actions.drop_last();
        assert forall|i: int| 0 <= i < rs.len() implies read_of(#[trigger] acts[i]) == rs[i] by {
            assert(read_of(actions[i]) == reads[i]);
        }
        lemma_forwards_reads(rs, acts);
    }
}

pub struct Session {
    state: SessionState,
}

impl Session {
    pub closed spec fn state(&self) -> SessionState {
        self.state
    }

    /// Opens a session when `decision` lets the client in: the client counts
    /// as connected and the status document is what it receives first. A
    /// refused client gets no session and no document, and no counter moves.
    pub fn open(stats: &mut Stats, decision: AuthDecision) -> (r: Result<(Session, String), AuthError>)
        requires
            decision is Allow ==> old(stats).ws_clients < u64::MAX,
        ensures
            decision is Deny ==> r == Err::<(Session, String), AuthError>(AuthError) && *final(stats)
                == *old(stats),
            decision is Allow ==> (r matches Ok((s, status)) && s.state()
                == SessionState::Authenticated && status@ == frame_text(
                Frame::Status { connected: true },
            )),
            decision is Allow ==> final(stats).ws_clients == old(stats).ws_clients + 1
                && final(stats).msgs_total == old(stats).msgs_total && final(stats).bytes_total
                == old(stats).bytes_total && final(stats).sec_acc == old(stats).sec_acc
                && final(stats).window@ == old(stats).window@,
    {
        match decision {
            AuthDecision::Deny => Err(AuthError),
            AuthDecision::Allow => {
                stats.client_connected();
                let status = render_frame(&status_frame());
                Ok((Session { state: SessionState::Authenticated }, status))
            },
        }
    }

    /// Marks the session as streaming, once the transport holds a receiver
    /// subscribed after the status document was sent.
    pub fn start_streaming(&mut self)
        requires
            old(self).state() == SessionState::Authenticated,
        ensures
            final(self).state() == SessionState::Streaming,
    {
        self.state = SessionState::Streaming;
    }

    /// What to do with one read of the receiver: send a frame verbatim,
    /// skip over frames lost to lag, or close once the producer is gone.
    pub fn on_recv(&mut self, got: Recv) -> (r: Action)
        requires
            old(self).state() == SessionState::Streaming,
        ensures
            read_of(r) == got,
            final(self).state() == SessionState::Streaming,
    {
        match got {
            Recv::Frame(f) => Action::Send(f),
            Recv::Lagged(n) => Action::Skip(n),
            Recv::Closed => Action::Close,
        }
    }

    /// Ends the session, whatever ended it: the client left, a send failed,
    /// or the producer closed. The gauge drops by one the first time only, and
    /// the transport then drops the receiver.
    pub fn close(&mut self, stats: &mut Stats)
        requires
            old(self).state() != SessionState::Closed ==> old(stats).ws_clients > 0,
        ensures
            final(self).state() == SessionState::Closed,
            final(stats).ws_clients == if old(self).state() == SessionState::Closed {
                old(stats).ws_clients as int
            } else {
                old(stats).ws_clients - 1
            },
            final(stats).msgs_total == old(stats).msgs_total,
            final(stats).bytes_total == old(stats).bytes_total,
            final(stats).sec_acc == old(stats).sec_acc,
            final(stats).window@ == old(stats).window@,
    {
        if self.state != SessionState::Closed {
            stats.client_disconnected();
        }
        self.state = SessionState::Closed;
    }

    /// Where the session stands.
    pub fn current_state(&self) -> (r: SessionState)
        ensures
            r == self.state(),
    {
        self.state
    }
}

} // verus!
