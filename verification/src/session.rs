//! A session: bytes go from the client to the daemon and from the daemon to the client until
//! one of them is gone or the time is up.

use vstd::prelude::*;

verus! {

/// What a client sends.
#[derive(Debug)]
pub enum Frame {
    /// Bytes for the daemon.
    Binary(Vec<u8>),
    /// The end of the connection.
    Close,
    /// Anything else, which is of no concern.
    Other,
}

/// What happens during a session.
#[derive(Debug)]
pub enum SessionEvent {
    /// The client sent a frame.
    ClientFrame(Frame),
    /// The client is gone.
    ClientGone,
    /// Receiving from the client failed.
    ClientFailed,
    /// The daemon wrote these bytes. None mean that it writes no more.
    DaemonOutput(Vec<u8>),
    /// Reading from the daemon failed.
    DaemonFailed,
    /// Writing to the daemon failed.
    DaemonWriteFailed,
    /// Sending to the client failed.
    ClientSendFailed,
    /// The session has lasted as long as it may.
    TimedOut,
}

/// Why a session ended.
#[derive(Debug, Clone, Copy, PartialEq, Eq, Structural)]
pub enum EndReason {
    ClientClosed,
    ClientFailed,
    DaemonDone,
    DaemonFailed,
    DaemonWriteFailed,
    ClientSendFailed,
    TimedOut,
}

/// What to do next in a session.
#[derive(Debug)]
pub enum SessionAction {
    /// Write these bytes to the daemon.
    WriteDaemon(Vec<u8>),
    /// Send these bytes to the client, in one binary frame.
    SendClient(Vec<u8>),
    /// Wait for what happens next.
    Wait,
    /// End the session: stop the daemon.
    End(EndReason),
}

/// What an event means for a session that still runs.
pub enum Effect {
    /// Bytes go from the client to the daemon.
    ToDaemon(Seq<u8>),
    /// Bytes go from the daemon to the client.
    ToClient(Seq<u8>),
    Nothing,
    End(EndReason),
}

/// The mathematical value of a [`SessionAction`].
pub enum ActionView {
    WriteDaemon(Seq<u8>),
    SendClient(Seq<u8>),
    Wait,
    End(EndReason),
}

impl SessionEvent {
    /// What the event means for a session that still runs: binary frames and output are passed
    /// on, other frames mean nothing, and everything else ends the session.
    pub open spec fn effect(self) -> Effect {
        match self {
            SessionEvent::ClientFrame(Frame::Binary(data)) => Effect::ToDaemon(data@),
            SessionEvent::ClientFrame(Frame::Close) => Effect::End(EndReason::ClientClosed),
            SessionEvent::ClientFrame(Frame::Other) => Effect::Nothing,
            SessionEvent::ClientGone => Effect::End(EndReason::ClientClosed),
            SessionEvent::ClientFailed => Effect::End(EndReason::ClientFailed),
            SessionEvent::DaemonOutput(data) => if data@.len() == 0 {
                Effect::End(EndReason::DaemonDone)
            } else {
                Effect::ToClient(data@)
            },
            SessionEvent::DaemonFailed => Effect::End(EndReason::DaemonFailed),
            SessionEvent::DaemonWriteFailed => Effect::End(EndReason::DaemonWriteFailed),
            SessionEvent::ClientSendFailed => Effect::End(EndReason::ClientSendFailed),
            SessionEvent::TimedOut => Effect::End(EndReason::TimedOut),
        }
    }
}

impl View for SessionAction {
    type V = ActionView;

    open spec fn view(&self) -> ActionView {
        match self {
            SessionAction::WriteDaemon(data) => ActionView::WriteDaemon(data@),
            SessionAction::SendClient(data) => ActionView::SendClient(data@),
            SessionAction::Wait => ActionView::Wait,
            SessionAction::End(reason) => ActionView::End(*reason),
        }
    }
}

/// What to do about an event with the effect `event` in a session that has ended for the reason
/// `ended`, if it has: a session that has ended stays so.
pub open spec fn action_on(ended: Option<EndReason>, event: Effect) -> ActionView {
    match ended {
        Some(reason) => ActionView::End(reason),
        None => match event {
            Effect::ToDaemon(data) => ActionView::WriteDaemon(data),
            Effect::ToClient(data) => ActionView::SendClient(data),
            Effect::Nothing => ActionView::Wait,
            Effect::End(reason) => ActionView::End(reason),
        },
    }
}

/// Whether a session has ended after an event with the effect `event`, and why.
pub open spec fn ended_after(ended: Option<EndReason>, event: Effect) -> Option<EndReason> {
    match action_on(ended, event) {
        ActionView::End(reason) => Some(reason),
        _ => None,
    }
}

/// A session between a client and a daemon.
#[derive(Debug)]
pub struct RelaySession {
    ended: Option<EndReason>,
}

impl View for RelaySession {
    type V = Option<EndReason>;

    /// Why the session has ended, if it has.
    closed spec fn view(&self) -> Option<EndReason> {
        self.ended
    }
}

impl RelaySession {
    /// A session that has just begun.
    pub fn new() -> (r: Self)
        ensures
            r@ is None,
    {
        RelaySession { ended: None }
    }

    /// Why the session has ended, if it has.
    pub fn end_reason(&self) -> (r: Option<EndReason>)
        ensures
            r == self@,
    {
        self.ended
    }

    /// Takes in what happened and says what to do next.
    pub fn on_event(&mut self, event: SessionEvent) -> (r: SessionAction)
        ensures
            r@ == action_on(old(self)@, event.effect()),
            final(self)@ == ended_after(old(self)@, event.effect()),
            match (old(self)@, event) {
                (Some(reason), _) => r == SessionAction::End(reason),
                (None, SessionEvent::ClientFrame(Frame::Binary(data))) => r
                    matches SessionAction::WriteDaemon(bytes) && bytes@ == data@,
                (None, SessionEvent::ClientFrame(Frame::Other)) => r is Wait,
                (None, SessionEvent::DaemonOutput(data)) => if data@.len() > 0 {
                    r matches SessionAction::SendClient(bytes) && bytes@ == data@
                } else {
                    r is End
                },
                (None, _) => r is End,
            },
            final(self)@ is Some <==> r is End,
    {
        if let Some(reason) = self.ended {
            return SessionAction::End(reason);
        }
        let reason: EndReason = match event {
            SessionEvent::ClientFrame(Frame::Binary(data)) => return SessionAction::WriteDaemon(
                data,
            ),
            SessionEvent::ClientFrame(Frame::Other) => return SessionAction::Wait,
            SessionEvent::ClientFrame(Frame::Close) => EndReason::ClientClosed,
            SessionEvent::ClientGone => EndReason::ClientClosed,
            SessionEvent::ClientFailed => EndReason::ClientFailed,
            SessionEvent::DaemonOutput(data) => {
                if data.len() > 0 {
                    return SessionAction::SendClient(data);
                }
                EndReason::DaemonDone
            },
            SessionEvent::DaemonFailed => EndReason::DaemonFailed,
            SessionEvent::DaemonWriteFailed => EndReason::DaemonWriteFailed,
            SessionEvent::ClientSendFailed => EndReason::ClientSendFailed,
            SessionEvent::TimedOut => EndReason::TimedOut,
        };
        self.ended = Some(reason);
        SessionAction::End(reason)
    }
}

/// Whether and why a session has ended after events with the effects `events`.
pub open spec fn ended_by(events: Seq<Effect>) -> Option<EndReason>
    decreases events.len(),
{
    if events.len() == 0 {
        None
    } else {
        ended_after(ended_by(events.drop_last()), events.last())
    }
}

/// What is written to the daemon during `events`.
pub open spec fn written(events: Seq<Effect>) -> Seq<u8>
    decreases events.len(),
{
    if events.len() == 0 {
        Seq::empty()
    } else {
        let before = events.drop_last();
        match action_on(ended_by(before), events.last()) {
            ActionView::WriteDaemon(data) => written(before) + data,
            _ => written(before),
        }
    }
}

/// What is sent to the client during `events`.
pub open spec fn sent(events: Seq<Effect>) -> Seq<u8>
    decreases events.len(),
{
    if events.len() == 0 {
        Seq::empty()
    } else {
        let before = events.drop_last();
        match action_on(ended_by(before), events.last()) {
            ActionView::SendClient(data) => sent(before) + data,
            _ => sent(before),
        }
    }
}

/// The bytes for the daemon in all binary frames among `events`.
pub open spec fn client_bytes(events: Seq<Effect>) -> Seq<u8>
    decreases events.len(),
{
    if events.len() == 0 {
        Seq::empty()
    } else {
        match events.last() {
            Effect::ToDaemon(data) => client_bytes(events.drop_last()) + data,
            _ => client_bytes(events.drop_last()),
        }
    }
}

/// The bytes for the client in all outputs of the daemon among `events`.
pub open spec fn daemon_bytes(events: Seq<Effect>) -> Seq<u8>
    decreases events.len(),
{
    if events.len() == 0 {
        Seq::empty()
    } else {
        match events.last() {
            Effect::ToClient(data) => daemon_bytes(events.drop_last()) + data,
            _ => daemon_bytes(events.drop_last()),
        }
    }
}

/// Until it ends, a session is transparent: what the client sent is what the daemon is
/// written, and what the daemon wrote is what the client is sent, byte for byte.
pub proof fn law_sessions_are_transparent(events: Seq<Effect>)
    requires
        ended_by(events) is None,
    ensures
        written(events) == client_bytes(events),
        sent(events) == daemon_bytes(events),
    decreases events.len(),
{
    if events.len() > 0 {
        law_sessions_are_transparent(events.drop_last());
    }
}

/// A session ends with the first event that ends it, and for that event's reason.
pub proof fn law_first_end_counts(events: Seq<Effect>, i: int, reason: EndReason)
    requires
        0 <= i < events.len(),
        events[i] == Effect::End(reason),
        forall|j: int| 0 <= j < i ==> !((#[trigger] events[j]) is End),
    ensures
        ended_by(events) == Some(reason),
    decreases events.len(),
{
    let before = events.drop_last();
    if i == events.len() - 1 {
        lemma_runs_on(before);
    } else {
        assert(before[i] == events[i]);
        law_first_end_counts(before, i, reason);
    }
}

proof fn lemma_runs_on(events: Seq<Effect>)
    requires
        forall|j: int| 0 <= j < events.len() ==> !((#[trigger] events[j]) is End),
    ensures
        ended_by(events) is None,
    decreases events.len(),
{
    if events.len() > 0 {
        lemma_runs_on(events.drop_last());
    }
}

/// After its end, nothing more is written or sent in a session, and it stays ended for the
/// same reason.
pub proof fn law_nothing_is_relayed_after_the_end(events: Seq<Effect>, more: Seq<Effect>)
    requires
        ended_by(events) is Some,
    ensures
        ended_by(events + more) == ended_by(events),
        written(events + more) == written(events),
        sent(events + more) == sent(events),
    decreases more.len(),
{
    if more.len() == 0 {
        assert(events + more == events);
    } else {
        law_nothing_is_relayed_after_the_end(events, more.drop_last());
        assert((events + more).drop_last() == events + more.drop_last());
        assert((events + more).last() == more.last());
    }
}

/// While a session runs, every binary frame of the client is written to the daemon whole and
/// unchanged, and every output of the daemon is sent to the client whole and unchanged. Other
/// frames do nothing. None of these ends the session.
pub proof fn law_running_sessions_pass_everything_on(data: Vec<u8>)
    ensures
        action_on(None, SessionEvent::ClientFrame(Frame::Binary(data)).effect())
            == ActionView::WriteDaemon(data@),
        ended_after(None, SessionEvent::ClientFrame(Frame::Binary(data)).effect()) is None,
        data@.len() > 0 ==> action_on(None, SessionEvent::DaemonOutput(data).effect())
            == ActionView::SendClient(data@),
        data@.len() > 0 ==> ended_after(None, SessionEvent::DaemonOutput(data).effect()) is None,
        action_on(None, SessionEvent::ClientFrame(Frame::Other).effect()) == ActionView::Wait,
        ended_after(None, SessionEvent::ClientFrame(Frame::Other).effect()) is None,
{
}

/// A running session ends when the client closes or is gone, when the daemon writes no more,
/// when anything fails and when the time is up, each for its own reason.
pub proof fn law_sessions_end_for_a_reason(end: Vec<u8>)
    requires
        end@.len() == 0,
    ensures
        action_on(None, SessionEvent::ClientFrame(Frame::Close).effect()) == ActionView::End(
            EndReason::ClientClosed,
        ),
        action_on(None, SessionEvent::ClientGone.effect()) == ActionView::End(
            EndReason::ClientClosed,
        ),
        action_on(None, SessionEvent::ClientFailed.effect()) == ActionView::End(
            EndReason::ClientFailed,
        ),
        action_on(None, SessionEvent::DaemonOutput(end).effect()) == ActionView::End(
            EndReason::DaemonDone,
        ),
        action_on(None, SessionEvent::DaemonFailed.effect()) == ActionView::End(
            EndReason::DaemonFailed,
        ),
        action_on(None, SessionEvent::DaemonWriteFailed.effect()) == ActionView::End(
            EndReason::DaemonWriteFailed,
        ),
        action_on(None, SessionEvent::ClientSendFailed.effect()) == ActionView::End(
            EndReason::ClientSendFailed,
        ),
        action_on(None, SessionEvent::TimedOut.effect()) == ActionView::End(EndReason::TimedOut),
{
}

/// A session that has ended does nothing more, whatever happens, and keeps its reason.
pub proof fn law_ended_sessions_stay_ended(reason: EndReason, event: SessionEvent)
    ensures
        action_on(Some(reason), event.effect()) == ActionView::End(reason),
        ended_after(Some(reason), event.effect()) == Some(reason),
{
}

/// A running session that is told to end has ended, for the reason that it is told, and one
/// that is told anything else runs on.
pub proof fn law_sessions_end_when_told(event: SessionEvent)
    ensures
        ended_after(None, event.effect()) == match action_on(None, event.effect()) {
            ActionView::End(reason) => Some(reason),
            _ => None::<EndReason>,
        },
{
}

/// What `events` mean for a session.
pub open spec fn effects(events: Seq<SessionEvent>) -> Seq<Effect> {
    events.map_values(|event: SessionEvent| event.effect())
}

/// The bytes arrive in the order in which they come: whatever happened before, as long as the
/// session runs, the bytes of a frame are added to what the daemon was written, and the bytes of
/// an output to what the client was sent, all of them and behind everything else. At first
/// nothing was.
pub proof fn law_bytes_arrive_in_order(events: Seq<SessionEvent>, data: Vec<u8>)
    requires
        ended_by(effects(events)) is None,
    ensures
        ({
            let framed = effects(events.push(SessionEvent::ClientFrame(Frame::Binary(data))));
            &&& written(framed) == written(effects(events)) + data@
            &&& sent(framed) == sent(effects(events))
            &&& ended_by(framed) is None
        }),
        data@.len() > 0 ==> {
            let output = effects(events.push(SessionEvent::DaemonOutput(data)));
            &&& sent(output) == sent(effects(events)) + data@
            &&& written(output) == written(effects(events))
            &&& ended_by(output) is None
        },
        written(effects(Seq::empty())) == Seq::<u8>::empty(),
        sent(effects(Seq::empty())) == Seq::<u8>::empty(),
        ended_by(effects(Seq::empty())) is None,
{
    let frame = SessionEvent::ClientFrame(Frame::Binary(data));
    let output = SessionEvent::DaemonOutput(data);
    assert(effects(events.push(frame)).drop_last() == effects(events));
    assert(effects(events.push(frame)).last() == frame.effect());
    assert(effects(events.push(output)).drop_last() == effects(events));
    assert(effects(events.push(output)).last() == output.effect());
}

/// No event but a frame or an output moves bytes.
pub proof fn law_other_events_move_nothing(events: Seq<SessionEvent>, event: SessionEvent)
    requires
        !(event matches SessionEvent::ClientFrame(Frame::Binary(_))),
        !(event is DaemonOutput),
    ensures
        written(effects(events.push(event))) == written(effects(events)),
        sent(effects(events.push(event))) == sent(effects(events)),
{
    assert(effects(events.push(event)).drop_last() == effects(events));
    assert(effects(events.push(event)).last() == event.effect());
}

/// What to do after a read from the daemon's error output.
#[derive(Debug, Clone, Copy, PartialEq, Eq, Structural)]
pub enum LogStep {
    /// Log this many bytes and read on.
    Log(usize),
    /// Read no more.
    Stop,
}

/// What to do after a read from the daemon's error output that gave `read` bytes, or failed.
pub open spec fn after_log_read(read: Option<usize>) -> LogStep {
    match read {
        Some(n) if n > 0 => LogStep::Log(n),
        _ => LogStep::Stop,
    }
}

/// Everything that is read from the daemon's error output is logged, until there is no more or
/// a read fails.
pub proof fn law_everything_read_is_logged(n: usize)
    ensures
        n > 0 ==> after_log_read(Some(n)) == LogStep::Log(n),
        after_log_read(Some(0)) == LogStep::Stop,
        after_log_read(None) == LogStep::Stop,
{
}

/// What to do after a read from the daemon's error output that gave `read` bytes, or failed.
pub fn log_step(read: Option<usize>) -> (r: LogStep)
    ensures
        r == match read {
            Some(n) if n > 0 => LogStep::Log(n),
            _ => LogStep::Stop,
        },
        r == after_log_read(read),
{
    match read {
        Some(n) => if n > 0 {
            LogStep::Log(n)
        } else {
            LogStep::Stop
        },
        None => LogStep::Stop,
    }
}

} // verus!
