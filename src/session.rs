use vstd::prelude::*;

use crate::codec::{decode_reply, decode_spec, AnnouncementView, DecodeError, DeviceAnnouncement};

verus! {

/// Where the discovery session stands.
#[derive(PartialEq, Eq, Structural, Clone, Copy, Debug)]
pub enum Phase {
    /// No socket and no listener.
    Idle,
    /// `start` was accepted; the socket is being bound and the probe sent.
    Starting,
    /// A socket and a listener are live.
    Running,
    /// The stop flag is raised; the socket is closed and the listener is being joined.
    Stopping,
}

/// Errors of the session's lifecycle.
#[derive(PartialEq, Eq, Structural, Clone, Copy, Debug)]
pub enum SessionError {
    /// `start` while a session is live.
    AlreadyRunning,
    /// `stop` while no session is live.
    NotRunning,
    /// The socket could not be bound or configured.
    BindFailed,
    /// The probe could not be sent.
    SendFailed,
    /// A receive failed for a reason other than a timeout or the session's own stop.
    ReceiveFailed,
}

impl SessionError {
    /// A short description of the error.
    pub fn message(&self) -> (r: String)
        ensures
            r@ == session_error_message(*self),
    {
        match self {
            SessionError::AlreadyRunning => "UDP broadcast is already running".to_owned(),
            SessionError::NotRunning => "UDP broadcast is not running".to_owned(),
            SessionError::BindFailed => "Failed to bind UDP socket".to_owned(),
            SessionError::SendFailed => "Failed to send discovery probe".to_owned(),
            SessionError::ReceiveFailed => "Error receiving data".to_owned(),
        }
    }
}

pub open spec fn session_error_message(e: SessionError) -> Seq<char> {
    match e {
        SessionError::AlreadyRunning => "UDP broadcast is already running"@,
        SessionError::NotRunning => "UDP broadcast is not running"@,
        SessionError::BindFailed => "Failed to bind UDP socket"@,
        SessionError::SendFailed => "Failed to send discovery probe"@,
        SessionError::ReceiveFailed => "Error receiving data"@,
    }
}

/// How binding the socket and sending the probe went.
#[derive(PartialEq, Eq, Structural, Clone, Copy, Debug)]
pub enum SetupOutcome {
    /// The socket is bound, set up for broadcast with a receive timeout, and the probe went out.
    Ready,
    /// Binding or configuring the socket failed.
    BindFailed,
    /// Sending the probe failed.
    SendFailed,
}

/// What one receive on the socket gave.
pub enum ReceiveOutcome {
    /// A datagram, read as text, and its sender written `host:port`.
    Datagram { data: String, sender: String },
    /// The receive timed out with no traffic.
    TimedOut,
    /// The receive failed otherwise.
    Failed,
}

/// What the listener does after one receive.
pub enum ListenerAction {
    /// Hand the announcement to the event sink and receive again.
    Deliver(DeviceAnnouncement),
    /// Log the bad reply and receive again.
    Discard(DecodeError),
    /// Receive again.
    Continue,
    /// Leave the loop quietly.
    Exit,
    /// Report the error through the event sink and leave the loop.
    Abort(SessionError),
}

/// The lifecycle of the discovery session: at most one session is live at a time.
pub struct DiscoverySession {
    phase: Phase,
}

/// The phase after `start` from `p`, and its result.
pub open spec fn start_spec(p: Phase) -> (Phase, Result<(), SessionError>) {
    if p == Phase::Idle {
        (Phase::Starting, Ok(()))
    } else {
        (p, Err(SessionError::AlreadyRunning))
    }
}

/// The phase once setup ended with `o`, and the result of `start`.
pub open spec fn setup_spec(o: SetupOutcome) -> (Phase, Result<(), SessionError>) {
    match o {
        SetupOutcome::Ready => (Phase::Running, Ok(())),
        SetupOutcome::BindFailed => (Phase::Idle, Err(SessionError::BindFailed)),
        SetupOutcome::SendFailed => (Phase::Idle, Err(SessionError::SendFailed)),
    }
}

/// The phase after `stop` from `p`, and its result.
pub open spec fn stop_spec(p: Phase) -> (Phase, Result<(), SessionError>) {
    if p == Phase::Running {
        (Phase::Stopping, Ok(()))
    } else {
        (p, Err(SessionError::NotRunning))
    }
}

/// The view of a listener action.
pub enum ActionView {
    Deliver(AnnouncementView),
    Discard(DecodeError),
    Continue,
    Exit,
    Abort(SessionError),
}

impl View for ListenerAction {
    type V = ActionView;

    open spec fn view(&self) -> ActionView {
        match self {
            ListenerAction::Deliver(a) => ActionView::Deliver(a@),
            ListenerAction::Discard(e) => ActionView::Discard(*e),
            ListenerAction::Continue => ActionView::Continue,
            ListenerAction::Exit => ActionView::Exit,
            ListenerAction::Abort(e) => ActionView::Abort(*e),
        }
    }
}

/// What the listener does after a receive that gave `o`, the stop flag reading `stop_requested`.
pub open spec fn listener_spec(stop_requested: bool, o: ReceiveOutcome) -> ActionView {
    match o {
        ReceiveOutcome::Datagram { data, sender } => match decode_spec(data@, sender@) {
            Ok(v) => ActionView::Deliver(v),
            Err(e) => ActionView::Discard(e),
        },
        ReceiveOutcome::TimedOut => ActionView::Continue,
        ReceiveOutcome::Failed => if stop_requested {
            ActionView::Exit
        } else {
            ActionView::Abort(SessionError::ReceiveFailed)
        },
    }
}

impl DiscoverySession {
    pub closed spec fn phase_spec(&self) -> Phase {
        self.phase
    }

    /// A session with nothing live.
    pub fn new() -> (r: Self)
        ensures
            r.phase_spec() == Phase::Idle,
    {
        DiscoverySession { phase: Phase::Idle }
    }

    /// The current phase.
    pub fn phase(&self) -> (r: Phase)
        ensures
            r == self.phase_spec(),
    {
        self.phase
    }

    /// Whether a session is live (a socket and a listener are held).
    pub fn is_running(&self) -> (r: bool)
        ensures
            r == (self.phase_spec() == Phase::Running || self.phase_spec() == Phase::Stopping),
    {
        self.phase == Phase::Running || self.phase == Phase::Stopping
    }

    /// Whether the listener has been asked to leave.
    pub fn stop_requested(&self) -> (r: bool)
        ensures
            r == (self.phase_spec() == Phase::Stopping),
    {
        self.phase == Phase::Stopping
    }

    /// Asks to start discovery. Accepted only from `Idle`; then the caller binds the
    /// socket and sends the probe, and reports how that went to `setup_finished`.
    /// Refused with `AlreadyRunning` otherwise, with nothing changed.
    pub fn start(&mut self) -> (r: Result<(), SessionError>)
        ensures
            (final(self).phase_spec(), r) == start_spec(old(self).phase_spec()),
    {
        if self.phase == Phase::Idle {
            self.phase = Phase::Starting;
            Ok(())
        } else {
            Err(SessionError::AlreadyRunning)
        }
    }

    /// Records how binding and probing went, after an accepted `start`. On success
    /// the caller spawns the listener; on failure it drops the socket.
    pub fn setup_finished(&mut self, outcome: SetupOutcome) -> (r: Result<(), SessionError>)
        requires
            old(self).phase_spec() == Phase::Starting,
        ensures
            (final(self).phase_spec(), r) == setup_spec(outcome),
    {
        match outcome {
            SetupOutcome::Ready => {
                self.phase = Phase::Running;
                Ok(())
            },
            SetupOutcome::BindFailed => {
                self.phase = Phase::Idle;
                Err(SessionError::BindFailed)
            },
            SetupOutcome::SendFailed => {
                self.phase = Phase::Idle;
                Err(SessionError::SendFailed)
            },
        }
    }

    /// Asks to stop discovery. Accepted only from `Running`; then the caller raises
    /// the stop flag, closes the socket, joins the listener and calls `listener_joined`.
    /// Refused with `NotRunning` otherwise, with nothing changed.
    pub fn stop(&mut self) -> (r: Result<(), SessionError>)
        ensures
            (final(self).phase_spec(), r) == stop_spec(old(self).phase_spec()),
    {
        if self.phase == Phase::Running {
            self.phase = Phase::Stopping;
            Ok(())
        } else {
            Err(SessionError::NotRunning)
        }
    }

    /// Records that the listener has ended: the session is idle again and may be restarted.
    pub fn listener_joined(&mut self)
        requires
            old(self).phase_spec() == Phase::Stopping,
        ensures
            final(self).phase_spec() == Phase::Idle,
    {
        self.phase = Phase::Idle;
    }
}

/// Decides what the listener does after a receive that gave `outcome`, the stop flag
/// reading `stop_requested`. A bad reply never ends the loop; a timeout is the idle beat;
/// a failure is quiet when the session is stopping and fatal otherwise.
pub fn listener_step(stop_requested: bool, outcome: ReceiveOutcome) -> (r: ListenerAction)
    ensures
        r@ == listener_spec(stop_requested, outcome),
{
    match outcome {
        ReceiveOutcome::Datagram { data, sender } => {
            let d = decode_reply(data.as_str(), sender.as_str());
            match d {
                Ok(a) => ListenerAction::Deliver(a),
                Err(e) => ListenerAction::Discard(e),
            }
        },
        ReceiveOutcome::TimedOut => ListenerAction::Continue,
        ReceiveOutcome::Failed => {
            if stop_requested {
                ListenerAction::Exit
            } else {
                ListenerAction::Abort(SessionError::ReceiveFailed)
            }
        },
    }
}

/// A second `start` without a `stop` in between is refused with `AlreadyRunning` and
/// leaves the live session as it was, whatever the first setup gave.
pub proof fn law_single_session(p: Phase, o: SetupOutcome)
    requires
        start_spec(p).1 is Ok,
    ensures
        ({
            let live = setup_spec(o).0;
            setup_spec(o).1 is Ok ==> start_spec(live) == (live, Err::<(), SessionError>(
                SessionError::AlreadyRunning,
            ))
        }),
        start_spec(start_spec(p).0) == (Phase::Starting, Err::<(), SessionError>(
            SessionError::AlreadyRunning,
        )),
{
}

/// `stop` on an idle session is refused with `NotRunning` and changes nothing.
pub proof fn law_stop_when_idle()
    ensures
        stop_spec(Phase::Idle) == (Phase::Idle, Err::<(), SessionError>(SessionError::NotRunning)),
{
}

/// Stopping a running session raises the stop flag; from then on a failed receive
/// ends the listener quietly, and the session becomes idle only once the listener
/// has been joined, so nothing from it reaches the sink after `stop` completes.
/// A second `stop` meanwhile is refused.
pub proof fn law_stop_ends_listener(o: ReceiveOutcome)
    ensures
        stop_spec(Phase::Running) == (Phase::Stopping, Ok::<(), SessionError>(())),
        stop_spec(Phase::Stopping) == (Phase::Stopping, Err::<(), SessionError>(
            SessionError::NotRunning,
        )),
        start_spec(Phase::Stopping).0 == Phase::Stopping,
        o is Failed ==> listener_spec(true, o) == ActionView::Exit,
{
}

} // verus!
