//! The main loop as an explicit state machine: the state, the events of its
//! four sources, and the action that each event calls for.

use vstd::prelude::*;
use crate::mixer::MixerStrategy;

verus! {

/// A name and an authentication blob, as the discovery listener yields them.
#[derive(Clone, Debug, PartialEq, Eq)]
pub struct Credentials {
    pub username: String,
    /// The protocol's number for the kind of blob that `auth_data` is.
    pub auth_type: i32,
    pub auth_data: Vec<u8>,
}

/// A connection attempt that has not resolved yet.
#[derive(Clone, Debug, PartialEq, Eq)]
pub struct Attempt {
    /// The ticket under which the attempt was started.
    pub id: u64,
    /// The user whose credentials it was started with.
    pub username: String,
}

/// An installed control handle with its control task.
#[derive(Clone, Debug, PartialEq, Eq)]
pub struct SessionPair {
    /// The ticket of the attempt that the session came from.
    pub id: u64,
    /// The user whose credentials that attempt was started with.
    pub username: String,
}

/// What the loop currently holds of the remote service.
#[derive(Clone, Debug, PartialEq, Eq)]
pub enum Link {
    /// Neither an attempt nor a session.
    Idle,
    /// A pending connection attempt.
    Connecting(Attempt),
    /// The one active session pair.
    Active(SessionPair),
}

/// The part of the loop that events change.
#[derive(Clone, Debug, PartialEq, Eq)]
pub struct LoopState {
    pub link: Link,
    pub shutting_down: bool,
    /// The ticket given out last.
    pub issued: u64,
}

/// How a connection attempt ended.
#[derive(Clone, Copy, Debug, PartialEq, Eq)]
pub enum ConnectionOutcome {
    Established,
    Failed,
}

/// The end of a connection attempt, named by its ticket.
#[derive(Clone, Copy, Debug, PartialEq, Eq)]
pub struct ConnectionReport {
    pub attempt: u64,
    pub outcome: ConnectionOutcome,
}

/// What the discovery listener came up with.
#[derive(Clone, Debug, PartialEq, Eq)]
pub enum DiscoveryEvent {
    /// A remote controller selected this device and left credentials.
    Credentials(Credentials),
    /// The listener broke down and will yield nothing more.
    Failed,
}

/// The event sources, from the highest precedence to the lowest.
#[derive(Clone, Copy, Debug, PartialEq, Eq)]
pub enum Source {
    Discovery,
    Connection,
    Interrupt,
    ControlTask,
}

/// What each source holds ready at the start of a tick.
#[derive(Clone, Debug, PartialEq, Eq)]
pub struct Ready {
    /// What the discovery listener yielded.
    pub discovery: Option<DiscoveryEvent>,
    /// A connection attempt that resolved.
    pub connection: Option<ConnectionReport>,
    /// Whether an interrupt signal arrived.
    pub interrupt: bool,
    /// The ticket of a session whose control task resolved.
    pub control_task: Option<u64>,
}

/// What the driver has to do after an event.
#[derive(Clone, Debug, PartialEq, Eq)]
pub enum Action {
    /// Nothing: the event was stale or repeated.
    Nothing,
    /// Ask the session `retire`, if there is one, to shut down and let go of
    /// its pair; let go of any earlier attempt; then start connecting with
    /// `credentials` under the ticket `attempt`.
    Connect { attempt: u64, credentials: Credentials, retire: Option<u64> },
    /// Build mixer, player and control pair on the session that the attempt
    /// `session` established, and keep the pair under that ticket.
    Install { session: u64 },
    /// Let go of the attempt, which failed. No new attempt is made.
    Abandon { attempt: u64 },
    /// Ask the control handle of `session` to shut down.
    RequestShutdown { session: u64 },
    /// Leave the loop.
    Terminate,
    /// Give the loop up as failed: an event source broke down.
    Abort,
    /// No source is ready: yield until one is.
    Suspend,
}

/// The result of a tick: the source whose event was taken, and the action.
#[derive(Clone, Debug, PartialEq, Eq)]
pub struct Tick {
    pub source: Option<Source>,
    pub action: Action,
}

/// How the driver goes on after a tick.
#[derive(Clone, Copy, Debug, PartialEq, Eq)]
pub enum Flow {
    /// Perform the action and tick again at once: another source may be
    /// ready.
    Again,
    /// No source was ready: give way until one is.
    Yield,
    /// The loop is over.
    Exit,
    /// The loop has failed.
    Fail,
}

impl Tick {
    /// How the driver goes on after this tick.
    pub open spec fn spec_flow(&self) -> Flow {
        match self.action {
            Action::Suspend => Flow::Yield,
            Action::Terminate => Flow::Exit,
            Action::Abort => Flow::Fail,
            _ => Flow::Again,
        }
    }

    /// How the driver goes on after this tick: it leaves the loop when
    /// told to terminate or to abort, gives way when told to suspend, and
    /// else performs the action and ticks again.
    #[verifier::when_used_as_spec(spec_flow)]
    pub fn flow(&self) -> (r: Flow)
        ensures
            r == self.spec_flow(),
    {
        match &self.action {
            Action::Suspend => Flow::Yield,
            Action::Terminate => Flow::Exit,
            Action::Abort => Flow::Fail,
            _ => Flow::Again,
        }
    }
}

/// What is needed to build a session's audio side, fixed at startup.
#[derive(Clone, Debug, PartialEq, Eq)]
pub struct AudioSetup {
    pub mixer: MixerStrategy,
    /// Position of the audio backend in the registry.
    pub backend: usize,
    pub audio_device: Option<String>,
    pub device_name: String,
    pub linear_volume: bool,
}

/// How the device presents itself to remote controllers for one session.
#[derive(Clone, Debug, PartialEq, Eq)]
pub struct DeviceIdentity {
    pub name: String,
    /// The mixer's volume when the session is installed.
    pub volume: u16,
    pub linear_volume: bool,
}

/// The ticket that follows `issued`.
pub open spec fn ticket_after(issued: u64) -> u64 {
    if issued == u64::MAX {
        0
    } else {
        (issued + 1) as u64
    }
}

impl LoopState {
    /// A pending attempt or an active session carries the ticket given out last.
    pub open spec fn wf(self) -> bool {
        match self.link {
            Link::Idle => true,
            Link::Connecting(a) => a.id == self.issued,
            Link::Active(p) => p.id == self.issued,
        }
    }

    /// The ticket of the active session pair, if there is one.
    pub open spec fn active(self) -> Option<u64> {
        match self.link {
            Link::Active(p) => Some(p.id),
            _ => None,
        }
    }

    /// The ticket of the pending attempt, if there is one.
    pub open spec fn pending(self) -> Option<u64> {
        match self.link {
            Link::Connecting(a) => Some(a.id),
            _ => None,
        }
    }

    /// The state at startup: no session, not shutting down, and an attempt
    /// under ticket 1 where credentials were at hand.
    pub open spec fn initial(credentials: Option<Credentials>) -> LoopState {
        match credentials {
            Some(c) => LoopState {
                link: Link::Connecting(Attempt { id: 1, username: c.username }),
                shutting_down: false,
                issued: 1,
            },
            None => LoopState { link: Link::Idle, shutting_down: false, issued: 0 },
        }
    }

    /// Credentials arrived: the active pair, if any, is retired, and a fresh
    /// attempt takes the place of whatever was pending.
    pub open spec fn reconnect(self, credentials: Credentials) -> (LoopState, Action) {
        let id = ticket_after(self.issued);
        (
            LoopState {
                link: Link::Connecting(Attempt { id, username: credentials.username }),
                shutting_down: self.shutting_down,
                issued: id,
            },
            Action::Connect { attempt: id, credentials, retire: self.active() },
        )
    }

    /// A connection attempt resolved. Only the pending attempt counts: its
    /// success installs a session pair, its failure leaves the loop idle.
    pub open spec fn attempt_resolved(self, report: ConnectionReport) -> (LoopState, Action) {
        match self.link {
            Link::Connecting(a) => if a.id == report.attempt {
                match report.outcome {
                    ConnectionOutcome::Established => (
                        LoopState {
                            link: Link::Active(SessionPair { id: a.id, username: a.username }),
                            shutting_down: self.shutting_down,
                            issued: self.issued,
                        },
                        Action::Install { session: a.id },
                    ),
                    ConnectionOutcome::Failed => (
                        LoopState {
                            link: Link::Idle,
                            shutting_down: self.shutting_down,
                            issued: self.issued,
                        },
                        Action::Abandon { attempt: a.id },
                    ),
                }
            } else {
                (self, Action::Nothing)
            },
            _ => (self, Action::Nothing),
        }
    }

    /// An interrupt signal arrived.
    pub open spec fn interrupt(self) -> (LoopState, Action) {
        if self.shutting_down {
            (self, Action::Nothing)
        } else {
            match self.link {
                Link::Active(p) => (
                    LoopState { link: self.link, shutting_down: true, issued: self.issued },
                    Action::RequestShutdown { session: p.id },
                ),
                _ => (self, Action::Terminate),
            }
        }
    }

    /// The discovery listener yielded an event: credentials are connected
    /// with, and a breakdown of the listener is fatal to the loop.
    pub open spec fn discovered(self, event: DiscoveryEvent) -> (LoopState, Action) {
        match event {
            DiscoveryEvent::Credentials(c) => self.reconnect(c),
            DiscoveryEvent::Failed => (self, Action::Abort),
        }
    }

    /// The control task of `session` resolved. Where that is the active
    /// session the loop ends, whether or not a shutdown was asked for.
    pub open spec fn control_task_resolved(self, session: u64) -> (LoopState, Action) {
        if self.active() == Some(session) {
            (self, Action::Terminate)
        } else {
            (self, Action::Nothing)
        }
    }

    /// The source that a tick takes its event from: the first that is ready,
    /// in the order discovery, connection, interrupt, control task.
    pub open spec fn chosen(ready: Ready) -> Option<Source> {
        if ready.discovery is Some {
            Some(Source::Discovery)
        } else if ready.connection is Some {
            Some(Source::Connection)
        } else if ready.interrupt {
            Some(Source::Interrupt)
        } else if ready.control_task is Some {
            Some(Source::ControlTask)
        } else {
            None
        }
    }

    /// One tick: the event of the chosen source is handled, and no other.
    pub open spec fn tick(self, ready: Ready) -> (LoopState, Tick) {
        let source = Self::chosen(ready);
        let (next, action) = match source {
            Some(Source::Discovery) => self.discovered(ready.discovery->0),
            Some(Source::Connection) => self.attempt_resolved(ready.connection->0),
            Some(Source::Interrupt) => self.interrupt(),
            Some(Source::ControlTask) => self.control_task_resolved(ready.control_task->0),
            None => (self, Action::Suspend),
        };
        (next, Tick { source, action })
    }
}

/// The main loop's state: what events change, and the audio setup that every
/// new session is built from.
pub struct MainLoopState {
    state: LoopState,
    audio: AudioSetup,
}

impl View for MainLoopState {
    type V = LoopState;

    closed spec fn view(&self) -> LoopState {
        self.state
    }
}

impl MainLoopState {
    /// The audio setup, which no event changes.
    pub closed spec fn audio(&self) -> AudioSetup {
        self.audio
    }

    /// Whether the state is well formed.
    pub open spec fn wf(&self) -> bool {
        self@.wf()
    }

    /// Starts the loop's state. With credentials at hand the first attempt
    /// is pending from the start, and the driver has to begin it.
    pub fn new(credentials: Option<Credentials>, audio: AudioSetup) -> (r: (MainLoopState, Action))
        ensures
            r.0.wf(),
            r.0@ == LoopState::initial(credentials),
            r.0.audio() == audio,
            r.1 == match credentials {
                Some(c) => Action::Connect { attempt: 1, credentials: c, retire: None },
                None => Action::Nothing,
            },
    {
        match credentials {
            Some(c) => {
                let username = c.username.clone();
                let state = LoopState {
                    link: Link::Connecting(Attempt { id: 1, username }),
                    shutting_down: false,
                    issued: 1,
                };
                (
                    MainLoopState { state, audio },
                    Action::Connect { attempt: 1, credentials: c, retire: None },
                )
            },
            None => {
                let state = LoopState { link: Link::Idle, shutting_down: false, issued: 0 };
                (MainLoopState { state, audio }, Action::Nothing)
            },
        }
    }

    /// Whether an interrupt has asked the active session to shut down.
    pub fn shutting_down(&self) -> (r: bool)
        ensures
            r == self@.shutting_down,
    {
        self.state.shutting_down
    }

    /// The ticket of the pending attempt, if there is one.
    pub fn pending_attempt(&self) -> (r: Option<u64>)
        ensures
            r == self@.pending(),
    {
        match &self.state.link {
            Link::Connecting(a) => Some(a.id),
            _ => None,
        }
    }

    /// The ticket of the active session pair, if there is one.
    pub fn active_session(&self) -> (r: Option<u64>)
        ensures
            r == self@.active(),
    {
        match &self.state.link {
            Link::Active(p) => Some(p.id),
            _ => None,
        }
    }

    /// The user that the pending attempt or the active session belongs to.
    pub fn username(&self) -> (r: Option<String>)
        ensures
            r == match self@.link {
                Link::Idle => None,
                Link::Connecting(a) => Some(a.username),
                Link::Active(p) => Some(p.username),
            },
    {
        match &self.state.link {
            Link::Idle => None,
            Link::Connecting(a) => Some(a.username.clone()),
            Link::Active(p) => Some(p.username.clone()),
        }
    }

    /// The audio setup that sessions are built from.
    pub fn audio_setup(&self) -> (r: &AudioSetup)
        ensures
            *r == self.audio(),
    {
        &self.audio
    }

    /// The identity under which a session is installed, given the volume
    /// that its fresh mixer reports.
    pub fn device_identity(&self, volume: u16) -> (r: DeviceIdentity)
        ensures
            r == (DeviceIdentity {
                name: self.audio().device_name,
                volume,
                linear_volume: self.audio().linear_volume,
            }),
    {
        DeviceIdentity {
            name: self.audio.device_name.clone(),
            volume,
            linear_volume: self.audio.linear_volume,
        }
    }

    /// Handles credentials from the discovery listener.
    pub fn reconnect(&mut self, credentials: Credentials) -> (action: Action)
        requires
            old(self).wf(),
        ensures
            final(self).wf(),
            (final(self)@, action) == old(self)@.reconnect(credentials),
            final(self).audio() == old(self).audio(),
    {
        let id: u64 = if self.state.issued == u64::MAX {
            0
        } else {
            self.state.issued + 1
        };
        let retire = self.active_session();
        let username = credentials.username.clone();
        self.state.link = Link::Connecting(Attempt { id, username });
        self.state.issued = id;
        Action::Connect { attempt: id, credentials, retire }
    }

    /// Handles the end of a connection attempt.
    pub fn on_attempt_resolved(&mut self, report: ConnectionReport) -> (action: Action)
        requires
            old(self).wf(),
        ensures
            final(self).wf(),
            (final(self)@, action) == old(self)@.attempt_resolved(report),
            final(self).audio() == old(self).audio(),
    {
        let pending: Option<Attempt> = match &self.state.link {
            Link::Connecting(a) => Some(Attempt { id: a.id, username: a.username.clone() }),
            _ => None,
        };
        match pending {
            Some(a) => {
                if a.id == report.attempt {
                    match report.outcome {
                        ConnectionOutcome::Established => {
                            let session: u64 = a.id;
                            self.state.link = Link::Active(
                                SessionPair { id: a.id, username: a.username },
                            );
                            Action::Install { session }
                        },
                        ConnectionOutcome::Failed => {
                            self.state.link = Link::Idle;
                            Action::Abandon { attempt: a.id }
                        },
                    }
                } else {
                    Action::Nothing
                }
            },
            None => Action::Nothing,
        }
    }

    /// Handles an interrupt signal.
    pub fn on_interrupt(&mut self) -> (action: Action)
        requires
            old(self).wf(),
        ensures
            final(self).wf(),
            (final(self)@, action) == old(self)@.interrupt(),
            final(self).audio() == old(self).audio(),
    {
        if self.state.shutting_down {
            Action::Nothing
        } else {
            match self.active_session() {
                Some(session) => {
                    self.state.shutting_down = true;
                    Action::RequestShutdown { session }
                },
                None => Action::Terminate,
            }
        }
    }

    /// Handles the end of a control task.
    pub fn on_control_task_resolved(&self, session: u64) -> (action: Action)
        ensures
            action == self@.control_task_resolved(session).1,
            self@.control_task_resolved(session).0 == self@,
    {
        match self.active_session() {
            Some(active) => if active == session {
                Action::Terminate
            } else {
                Action::Nothing
            },
            None => Action::Nothing,
        }
    }

    /// Runs one tick of the loop on what the sources hold ready: takes the
    /// event of the first ready source in the order of precedence, handles
    /// it, and reports the source and the action. The driver performs the
    /// action, lets go of that source's event, and ticks again unless the
    /// action is to suspend or to terminate.
    pub fn poll(&mut self, ready: Ready) -> (tick: Tick)
        requires
            old(self).wf(),
        ensures
            final(self).wf(),
            (final(self)@, tick) == old(self)@.tick(ready),
            final(self).audio() == old(self).audio(),
    {
        let Ready { discovery, connection, interrupt, control_task } = ready;
        match discovery {
            Some(DiscoveryEvent::Credentials(credentials)) => {
                let action = self.reconnect(credentials);
                return Tick { source: Some(Source::Discovery), action };
            },
            Some(DiscoveryEvent::Failed) => {
                return Tick { source: Some(Source::Discovery), action: Action::Abort };
            },
            None => {},
        }
        match connection {
            Some(report) => {
                let action = self.on_attempt_resolved(report);
                return Tick { source: Some(Source::Connection), action };
            },
            None => {},
        }
        if interrupt {
            let action = self.on_interrupt();
            return Tick { source: Some(Source::Interrupt), action };
        }
        match control_task {
            Some(session) => {
                let action = self.on_control_task_resolved(session);
                Tick { source: Some(Source::ControlTask), action }
            },
            None => Tick { source: None, action: Action::Suspend },
        }
    }
}

} // verus!
