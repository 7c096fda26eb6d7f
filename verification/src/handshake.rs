//! The one-shot handshake and the session it opens.
//!
//! After spawning the companion server process, the client generates a fresh
//! one-shot channel name, writes it as a single newline-terminated UTF-8
//! line to the child's piped standard input ([`encode_oneshot_name`] gives
//! the exact bytes), and then waits for the child to connect back using
//! that name. Only once the connection is ready may requests and responses
//! flow; once the server process is gone, they fail for good.
//!
//! [`ClientSession`] records that life cycle as a phase machine. Each phase
//! change is one [`SessionEvent`]; the whole history is kept as a ghost
//! sequence, so the ordering laws ([`lemma_ready_orders_handshake`],
//! [`lemma_ended_is_final`]) hold of every session however its owner drives
//! it.
use vstd::prelude::*;

use vstd::string::StrSliceExecFns;
use vstd::string::StringSliceAdditionalSpecFns;

verus! {

/// Encodes a one-shot channel name for delivery over the child's standard
/// input: the UTF-8 bytes of the name followed by exactly one newline byte.
/// The caller must write this buffer in full or report failure; a prefix of
/// it never parses as a complete line on the receiving side.
pub fn encode_oneshot_name(name: &str) -> (line: Vec<u8>)
    ensures
        line@ == name.spec_bytes().push(10u8),
        line@.len() == name.spec_bytes().len() + 1,
        line@.last() == 10u8,
        line@.subrange(0, name.spec_bytes().len() as int) == name.spec_bytes(),
{
    let mut line = name.as_bytes_vec();
    line.push(10u8);
    proof {
        assert(line@.subrange(0, name.spec_bytes().len() as int) =~= name.spec_bytes());
    }
    line
}

/// What a client session observes, in the order it observes it.
#[derive(Clone, Copy, Debug, PartialEq, Eq, Structural)]
pub enum SessionEvent {
    /// The one-shot channel name was written, in full, to the child.
    NameDelivered,
    /// The server connected back using that name; the connection is usable.
    ConnectionReady,
    /// The server process terminated.
    ServerExited,
}

/// The phase a client session is in.
#[derive(Clone, Copy, Debug, PartialEq, Eq, Structural)]
pub enum SessionPhase {
    /// The companion process exists; no name has been delivered yet.
    Created,
    /// The name was delivered; the server has not connected back yet.
    NameSent,
    /// The connection is established; requests and responses may flow.
    Ready,
    /// The server process is gone; every send and receive fails from now on.
    Ended,
}

/// One step of the session phase machine. The handshake advances only in
/// order (a name can be delivered once, a connection becomes ready only
/// after the name was delivered), and the server's exit ends the session
/// from any phase.
pub open spec fn phase_step(phase: SessionPhase, event: SessionEvent) -> SessionPhase {
    match event {
        SessionEvent::NameDelivered => if phase is Created {
            SessionPhase::NameSent
        } else {
            phase
        },
        SessionEvent::ConnectionReady => if phase is NameSent {
            SessionPhase::Ready
        } else {
            phase
        },
        SessionEvent::ServerExited => SessionPhase::Ended,
    }
}

/// The phase a session is in after observing `events`, oldest first.
pub open spec fn run_session(events: Seq<SessionEvent>) -> SessionPhase
    decreases events.len(),
{
    if events.len() == 0 {
        SessionPhase::Created
    } else {
        phase_step(run_session(events.drop_last()), events.last())
    }
}

/// Whether a session in the given phase may send or receive messages.
pub open spec fn io_ready(phase: SessionPhase) -> bool {
    phase is Ready
}

/// The client's view of one session with the companion server process.
///
/// `phase` is always the fold of the recorded event history, so the laws
/// proved of [`run_session`] hold of every value of this type.
pub struct ClientSession {
    /// The phase the session is in now.
    pub phase: SessionPhase,
    /// Every event observed so far, oldest first.
    pub events: Ghost<Seq<SessionEvent>>,
}

impl ClientSession {
    /// The session's phase agrees with its recorded history.
    pub open spec fn wf(self) -> bool {
        self.phase == run_session(self.events@)
    }

    /// Starts the session record for a freshly spawned companion process:
    /// nothing has happened yet, so no traffic is allowed.
    pub fn new() -> (session: ClientSession)
        ensures
            session.wf(),
            session.phase is Created,
            session.events@ == Seq::<SessionEvent>::empty(),
    {
        ClientSession { phase: SessionPhase::Created, events: Ghost(Seq::empty()) }
    }

    /// Records one observed event and moves the phase accordingly.
    pub fn record(&mut self, event: SessionEvent)
        requires
            old(self).wf(),
        ensures
            final(self).wf(),
            final(self).phase == phase_step(old(self).phase, event),
            final(self).events@ == old(self).events@.push(event),
    {
        proof {
            assert(old(self).events@.push(event).drop_last() =~= old(self).events@);
        }
        let next = match event {
            SessionEvent::NameDelivered => match self.phase {
                SessionPhase::Created => SessionPhase::NameSent,
                _ => self.phase,
            },
            SessionEvent::ConnectionReady => match self.phase {
                SessionPhase::NameSent => SessionPhase::Ready,
                _ => self.phase,
            },
            SessionEvent::ServerExited => SessionPhase::Ended,
        };
        self.phase = next;
        self.events = Ghost(self.events@.push(event));
    }

    /// Whether a send may be attempted now. False before the handshake has
    /// completed and false forever once the server process is gone.
    pub fn send_allowed(&self) -> (allowed: bool)
        ensures
            allowed == io_ready(self.phase),
    {
        match self.phase {
            SessionPhase::Ready => true,
            _ => false,
        }
    }

    /// Whether a receive may be attempted now. Before the handshake has
    /// completed nothing is ready — in particular no stale or garbage data
    /// can be observed, because no receive is allowed at all.
    pub fn recv_allowed(&self) -> (allowed: bool)
        ensures
            allowed == io_ready(self.phase),
    {
        match self.phase {
            SessionPhase::Ready => true,
            _ => false,
        }
    }
}

/// Why a connect attempt failed.
#[derive(Clone, Copy, Debug, PartialEq, Eq, Structural)]
pub enum ConnectError {
    /// The one-shot name could not be delivered to the spawned process.
    NameNotDelivered,
    /// The name was delivered but the remote side never completed the
    /// handshake (the transport timed out or closed).
    HandshakeIncomplete,
}

/// The façade's connect flow, on the session record: the attempt succeeds
/// if and only if the one-shot name was delivered and the remote side then
/// connected back, and the resulting session is ready for traffic. A failed
/// attempt names the first step that failed and yields no session at all,
/// so nothing can be sent or received on it.
pub fn connect_session(name_delivered: bool, remote_connected: bool) -> (result: Result<
    ClientSession,
    ConnectError,
>)
    ensures
        result is Ok <==> name_delivered && remote_connected,
        result matches Ok(session) ==> session.wf() && session.phase is Ready,
        result matches Err(error) ==> (error is NameNotDelivered <==> !name_delivered),
        result matches Err(error) ==> (error is HandshakeIncomplete <==> name_delivered),
{
    let mut session = ClientSession::new();
    if !name_delivered {
        return Err(ConnectError::NameNotDelivered);
    }
    session.record(SessionEvent::NameDelivered);
    if !remote_connected {
        return Err(ConnectError::HandshakeIncomplete);
    }
    session.record(SessionEvent::ConnectionReady);
    Ok(session)
}

/// A session that reached the name-sent phase has the delivery on record.
pub proof fn lemma_name_sent_has_delivery(events: Seq<SessionEvent>)
    requires
        run_session(events) is NameSent,
    ensures
        exists|i: int| 0 <= i < events.len() && events[i] is NameDelivered,
    decreases events.len(),
{
    let prior = events.drop_last();
    if run_session(prior) is NameSent {
        lemma_name_sent_has_delivery(prior);
        let i = choose|i: int| 0 <= i < prior.len() && prior[i] is NameDelivered;
        assert(events[i] is NameDelivered);
    } else {
        assert(events.last() is NameDelivered);
        assert(events[events.len() - 1] is NameDelivered);
    }
}

/// Ordering law of the handshake: a session is ready for traffic only if
/// the one-shot name was delivered first and the server connected back
/// afterwards — in that order. No send or receive can succeed before the
/// name write completed.
pub proof fn lemma_ready_orders_handshake(events: Seq<SessionEvent>)
    requires
        run_session(events) is Ready,
    ensures
        exists|i: int, j: int|
            0 <= i < j < events.len() && events[i] is NameDelivered
                && events[j] is ConnectionReady,
    decreases events.len(),
{
    let prior = events.drop_last();
    if run_session(prior) is Ready {
        lemma_ready_orders_handshake(prior);
        let (i, j) = choose|i: int, j: int|
            0 <= i < j < prior.len() && prior[i] is NameDelivered
                && prior[j] is ConnectionReady;
        assert(events[i] is NameDelivered && events[j] is ConnectionReady);
    } else {
        assert(run_session(prior) is NameSent && events.last() is ConnectionReady);
        lemma_name_sent_has_delivery(prior);
        let i = choose|i: int| 0 <= i < prior.len() && prior[i] is NameDelivered;
        let j = events.len() - 1;
        assert(events[i] is NameDelivered && events[j] is ConnectionReady);
    }
}

/// Finality law of the session: once the server process has terminated, the
/// session stays ended whatever is observed later, so every subsequent send
/// and receive fails rather than hanging or silently succeeding.
pub proof fn lemma_ended_is_final(events: Seq<SessionEvent>, later: Seq<SessionEvent>)
    requires
        run_session(events) is Ended,
    ensures
        run_session(events + later) is Ended,
        !io_ready(run_session(events + later)),
    decreases later.len(),
{
    if later.len() == 0 {
        assert(events + later =~= events);
    } else {
        lemma_ended_is_final(events, later.drop_last());
        assert((events + later).drop_last() =~= events + later.drop_last());
        assert((events + later).last() == later.last());
    }
}

} // verus!
