//! The echo protocol of one WebTransport session, as a state machine.
//!
//! The transport runs outside the library: whoever drives a session waits on
//! the session's channels, turns what arrives into an [`Event`], hands it to
//! [`EchoSession::step`] and performs the [`Action`] that comes back.
use vstd::prelude::*;
use vstd::utf8::valid_utf8;

verus! {

/// The size of the buffer that one stream read fills at most.
pub const READ_BUFFER_SIZE: usize = 65536;

/// Where a session stands in its life.
#[derive(Clone, Copy, Debug, PartialEq, Eq, Structural)]
pub enum Phase {
    /// A connection has come in; its session request has not arrived yet.
    AwaitingRequest,
    /// The peer asked for a session, which has not been admitted yet.
    Requested,
    /// The session is admitted and its channels are being served.
    Servicing,
    /// The session is over; nothing more is sent on it.
    Terminated,
}

/// The channel on which an acknowledgement goes out.
#[derive(Clone, Copy, Debug, PartialEq, Eq, Structural)]
pub enum Reply {
    /// The write half of the bidirectional stream that was read.
    SameStream,
    /// A unidirectional stream that the server opens for this one reply.
    NewUniStream,
    /// A datagram of its own.
    Datagram,
}

/// What the driver of a session does next.
#[derive(Clone, Copy, Debug, PartialEq, Eq, Structural)]
pub enum Action {
    /// Admit the session that the peer asked for.
    AcceptSession,
    /// Send nothing; wait for the next channel event.
    Await,
    /// Send the acknowledgement once, on the given channel.
    Acknowledge(Reply),
    /// End the session.
    Close,
}

/// What happened on a session.
#[derive(Debug)]
pub enum Event {
    /// The peer's session request arrived.
    SessionRequested,
    /// The session was admitted.
    SessionAccepted,
    /// A peer-opened bidirectional stream was read once: `None` when the read
    /// gave no data, else the bytes read.
    BiRead(Option<Vec<u8>>),
    /// A peer-opened unidirectional stream was read once, likewise.
    UniRead(Option<Vec<u8>>),
    /// A datagram arrived with these bytes.
    Datagram(Vec<u8>),
    /// An I/O error, a reset stream, or the peer closing the session.
    Failed,
}

/// The bytes of the acknowledgement: `ACK` in ASCII.
pub open spec fn ack_bytes() -> Seq<u8> {
    seq![0x41u8, 0x43u8, 0x4Bu8]
}

/// The answer to a payload that arrived while servicing: an acknowledgement on
/// `reply` when the payload is UTF-8 text, the end of the session otherwise.
pub open spec fn answer(payload: Seq<u8>, reply: Reply) -> (Phase, Action) {
    if valid_utf8(payload) {
        (Phase::Servicing, Action::Acknowledge(reply))
    } else {
        (Phase::Terminated, Action::Close)
    }
}

/// The next phase and the action, for an event that arrives in phase `p`.
/// An event out of place ends the session.
pub open spec fn transition(p: Phase, e: Event) -> (Phase, Action) {
    match p {
        Phase::AwaitingRequest => match e {
            Event::SessionRequested => (Phase::Requested, Action::AcceptSession),
            _ => (Phase::Terminated, Action::Close),
        },
        Phase::Requested => match e {
            Event::SessionAccepted => (Phase::Servicing, Action::Await),
            _ => (Phase::Terminated, Action::Close),
        },
        Phase::Servicing => match e {
            Event::BiRead(read) => match read {
                Some(b) => answer(b@, Reply::SameStream),
                None => (Phase::Servicing, Action::Await),
            },
            Event::UniRead(read) => match read {
                Some(b) => answer(b@, Reply::NewUniStream),
                None => (Phase::Servicing, Action::Await),
            },
            Event::Datagram(b) => answer(b@, Reply::Datagram),
            _ => (Phase::Terminated, Action::Close),
        },
        Phase::Terminated => (Phase::Terminated, Action::Close),
    }
}

/// The actions that a session starting in phase `p` takes on the events `es`,
/// one for each event.
pub open spec fn trace(p: Phase, es: Seq<Event>) -> Seq<Action>
    decreases es.len(),
{
    if es.len() == 0 {
        Seq::empty()
    } else {
        seq![transition(p, es[0]).1] + trace(transition(p, es[0]).0, es.drop_first())
    }
}

/// The event carries a payload that is not UTF-8 text.
pub open spec fn carries_invalid_text(e: Event) -> bool {
    match e {
        Event::BiRead(Some(b)) => !valid_utf8(b@),
        Event::UniRead(Some(b)) => !valid_utf8(b@),
        Event::Datagram(b) => !valid_utf8(b@),
        _ => false,
    }
}

/// The phase of session `id` in a table of sessions; a session that has not
/// been seen yet is still awaiting its request.
pub open spec fn phase_of(sessions: Map<u64, Phase>, id: u64) -> Phase {
    if sessions.contains_key(id) {
        sessions[id]
    } else {
        Phase::AwaitingRequest
    }
}

/// The actions of a server that serves many sessions at once, on events that
/// arrive interleaved, each tagged with the session it belongs to.
pub open spec fn run_sessions(sessions: Map<u64, Phase>, es: Seq<(u64, Event)>) -> Seq<(u64, Action)>
    decreases es.len(),
{
    if es.len() == 0 {
        Seq::empty()
    } else {
        let id = es[0].0;
        let (q, a) = transition(phase_of(sessions, id), es[0].1);
        seq![(id, a)] + run_sessions(sessions.insert(id, q), es.drop_first())
    }
}

/// The events of session `id`, in order.
pub open spec fn events_of(es: Seq<(u64, Event)>, id: u64) -> Seq<Event>
    decreases es.len(),
{
    if es.len() == 0 {
        Seq::empty()
    } else if es[0].0 == id {
        seq![es[0].1] + events_of(es.drop_first(), id)
    } else {
        events_of(es.drop_first(), id)
    }
}

/// The actions taken for session `id`, in order.
pub open spec fn actions_of(acts: Seq<(u64, Action)>, id: u64) -> Seq<Action>
    decreases acts.len(),
{
    if acts.len() == 0 {
        Seq::empty()
    } else if acts[0].0 == id {
        seq![acts[0].1] + actions_of(acts.drop_first(), id)
    } else {
        actions_of(acts.drop_first(), id)
    }
}

/// A UTF-8 payload that arrives while servicing is answered by exactly one
/// acknowledgement: on the same stream for a bidirectional stream, on one newly
/// opened unidirectional stream for a unidirectional one, in one datagram for a
/// datagram. The session goes on.
pub proof fn lemma_text_is_acknowledged(payload: Vec<u8>)
    requires
        valid_utf8(payload@),
    ensures
        transition(Phase::Servicing, Event::BiRead(Some(payload)))
            == (Phase::Servicing, Action::Acknowledge(Reply::SameStream)),
        transition(Phase::Servicing, Event::UniRead(Some(payload)))
            == (Phase::Servicing, Action::Acknowledge(Reply::NewUniStream)),
        transition(Phase::Servicing, Event::Datagram(payload))
            == (Phase::Servicing, Action::Acknowledge(Reply::Datagram)),
{
}

/// A session takes one action for each event.
pub proof fn lemma_trace_len(p: Phase, es: Seq<Event>)
    ensures
        trace(p, es).len() == es.len(),
    decreases es.len(),
{
    if es.len() > 0 {
        lemma_trace_len(transition(p, es[0]).0, es.drop_first());
    }
}

/// Once a session is over, every later event is answered by closing it and
/// nothing else.
pub proof fn lemma_terminated_stays_closed(es: Seq<Event>)
    ensures
        forall|i: int| 0 <= i < es.len() ==> trace(Phase::Terminated, es)[i] == Action::Close,
    decreases es.len(),
{
    lemma_trace_len(Phase::Terminated, es);
    if es.len() > 0 {
        lemma_terminated_stays_closed(es.drop_first());
        lemma_trace_len(Phase::Terminated, es.drop_first());
    }
}

/// A payload that is not UTF-8 ends the session, on whichever channel it came
/// and in whichever phase: no acknowledgement is sent for it, nor for anything
/// after it.
pub proof fn lemma_invalid_text_ends_session(p: Phase, es: Seq<Event>)
    requires
        es.len() > 0,
        carries_invalid_text(es[0]),
    ensures
        transition(p, es[0]).0 == Phase::Terminated,
        forall|i: int| 0 <= i < es.len() ==> trace(p, es)[i] == Action::Close,
{
    lemma_terminated_stays_closed(es.drop_first());
    lemma_trace_len(p, es);
    lemma_trace_len(Phase::Terminated, es.drop_first());
    assert forall|i: int| 0 <= i < es.len() implies trace(p, es)[i] == Action::Close by {
        if i > 0 {
            assert(trace(p, es)[i] == trace(Phase::Terminated, es.drop_first())[i - 1]);
        }
    }
}

/// Sessions are isolated: when a server serves many sessions on interleaved
/// events, what it does for one session is what that session alone would do
/// on its own events, whatever the other sessions receive.
pub proof fn lemma_sessions_isolated(sessions: Map<u64, Phase>, es: Seq<(u64, Event)>, id: u64)
    ensures
        actions_of(run_sessions(sessions, es), id) == trace(phase_of(sessions, id), events_of(es, id)),
    decreases es.len(),
{
    if es.len() > 0 {
        let head = es[0].0;
        let (q, a) = transition(phase_of(sessions, head), es[0].1);
        let rest = run_sessions(sessions.insert(head, q), es.drop_first());
        lemma_sessions_isolated(sessions.insert(head, q), es.drop_first(), id);
        let acts = run_sessions(sessions, es);
        assert(acts == seq![(head, a)] + rest);
        assert(acts[0] == (head, a));
        assert(acts.drop_first() =~= rest);
        if head == id {
            assert(phase_of(sessions.insert(head, q), id) == q);
            let evs = events_of(es, id);
            assert(evs == seq![es[0].1] + events_of(es.drop_first(), id));
            assert(evs[0] == es[0].1);
            assert(evs.drop_first() =~= events_of(es.drop_first(), id));
        } else {
            assert(phase_of(sessions.insert(head, q), id) == phase_of(sessions, id));
        }
    }
}

/// Whether `bytes` is well-formed UTF-8.
///
/// Relies on `std::str::from_utf8`, which fails exactly on bytes that are not
/// UTF-8.
#[verifier::external_body]
fn is_utf8(bytes: &[u8]) -> (r: bool)
    ensures
        r == valid_utf8(bytes@),
{
    std::str::from_utf8(bytes).is_ok()
}

/// The acknowledgement that every successful exchange sends back.
pub fn ack() -> (r: Vec<u8>)
    ensures
        r@ == ack_bytes(),
{
    let mut r: Vec<u8> = Vec::new();
    r.push(0x41u8);
    r.push(0x43u8);
    r.push(0x4Bu8);
    assert(r@ =~= ack_bytes());
    r
}

/// One session of the echo server.
pub struct EchoSession {
    phase: Phase,
}

impl View for EchoSession {
    type V = Phase;

    closed spec fn view(&self) -> Phase {
        self.phase
    }
}

impl EchoSession {
    /// A session whose connection has just come in.
    pub fn new() -> (r: EchoSession)
        ensures
            r@ == Phase::AwaitingRequest,
    {
        EchoSession { phase: Phase::AwaitingRequest }
    }

    /// The phase the session is in.
    pub fn phase(&self) -> (r: Phase)
        ensures
            r == self@,
    {
        self.phase
    }

    /// Whether the session is over.
    pub fn is_terminated(&self) -> (r: bool)
        ensures
            r == (self@ == Phase::Terminated),
    {
        matches!(self.phase, Phase::Terminated)
    }

    /// Takes in one event and says what to do about it.
    pub fn step(&mut self, e: &Event) -> (a: Action)
        ensures
            (final(self)@, a) == transition(old(self)@, *e),
    {
        let (next, action) = match self.phase {
            Phase::AwaitingRequest => match e {
                Event::SessionRequested => (Phase::Requested, Action::AcceptSession),
                _ => (Phase::Terminated, Action::Close),
            },
            Phase::Requested => match e {
                Event::SessionAccepted => (Phase::Servicing, Action::Await),
                _ => (Phase::Terminated, Action::Close),
            },
            Phase::Servicing => match e {
                Event::BiRead(read) => match read {
                    Some(b) => Self::answer(b.as_slice(), Reply::SameStream),
                    None => (Phase::Servicing, Action::Await),
                },
                Event::UniRead(read) => match read {
                    Some(b) => Self::answer(b.as_slice(), Reply::NewUniStream),
                    None => (Phase::Servicing, Action::Await),
                },
                Event::Datagram(b) => Self::answer(b.as_slice(), Reply::Datagram),
                _ => (Phase::Terminated, Action::Close),
            },
            Phase::Terminated => (Phase::Terminated, Action::Close),
        };
        self.phase = next;
        action
    }

    fn answer(payload: &[u8], reply: Reply) -> (r: (Phase, Action))
        ensures
            r == answer(payload@, reply),
    {
        if is_utf8(payload) {
            (Phase::Servicing, Action::Acknowledge(reply))
        } else {
            (Phase::Terminated, Action::Close)
        }
    }
}

} // verus!
