use crate::config::{options_of, CreateOptions, NamedPipeConfig};
use crate::error::OsError;
use vstd::prelude::*;

verus! {

/// What the runtime reports to a listener.
#[derive(Clone, Copy, Debug, PartialEq, Eq, Structural)]
pub enum ListenerEvent {
    /// The pipe instance last asked for was created.
    InstanceCreated,
    /// Creating the pipe instance last asked for failed.
    CreateFailed(OsError),
    /// The caller asks for the next connection.
    AcceptRequested,
    /// A client is connected to the listening instance.
    ConnectSucceeded,
    /// No client is connected yet.
    ConnectWouldBlock,
    /// Connecting failed.
    ConnectFailed(OsError),
    /// The listening instance became writable: a client may have connected.
    Writable,
    /// The caller abandoned the accept in flight.
    AcceptDropped,
}

/// What a listener asks the runtime to do next.
#[derive(Clone, Copy, Debug, PartialEq, Eq, Structural)]
pub enum ListenerAction {
    /// Create a pipe instance of the listener's path; where
    /// `first_pipe_instance` holds, creation must fail if the path has one.
    CreateInstance { first_pipe_instance: bool },
    /// Ask the listening instance whether a client is connected.
    Connect,
    /// Register for write readiness of the listening instance and suspend.
    AwaitWritable,
    /// Hand the connected instance to the caller; the new instance listens.
    YieldConnection,
    /// Hand this error to the caller.
    Report(OsError),
    /// Nothing to do until the next event.
    Nothing,
}

#[derive(Clone, Copy, Debug, PartialEq, Eq, Structural)]
pub enum ListenerPhase {
    /// Not yet bound to its path.
    Idle,
    /// The first instance is being created.
    Binding,
    /// An instance listens; no accept is in flight.
    Listening,
    /// An accept is in flight and asks whether a client is connected.
    Connecting,
    /// An accept is in flight and waits for write readiness.
    AwaitingWritable,
    /// A client is connected; its replacement instance is being created.
    Replacing,
    /// The listener has no instance and creates none.
    Closed,
}

/// The state of a listener: its phase and the pipe instances it holds.
#[derive(Clone, Copy, Debug, PartialEq, Eq, Structural)]
pub struct ListenerState {
    pub phase: ListenerPhase,
    /// An instance that waits for a client is held.
    pub listening: bool,
    /// An instance with a connected client is held, not yet handed out.
    pub connected: bool,
}

impl ListenerState {
    /// The instances held agree with the phase: exactly one, listening,
    /// between binding and closing, except while the connected one waits for
    /// its replacement.
    pub open spec fn wf(&self) -> bool {
        match self.phase {
            ListenerPhase::Idle | ListenerPhase::Binding | ListenerPhase::Closed =>
                !self.listening && !self.connected,
            ListenerPhase::Listening | ListenerPhase::Connecting | ListenerPhase::AwaitingWritable =>
                self.listening && !self.connected,
            ListenerPhase::Replacing => !self.listening && self.connected,
        }
    }

    pub open spec fn with_phase(self, phase: ListenerPhase) -> ListenerState {
        ListenerState { phase, ..self }
    }

    /// The next state and action after `event`. Events that do not fit the
    /// phase change nothing.
    pub open spec fn next(self, event: ListenerEvent) -> (ListenerState, ListenerAction) {
        let unchanged = (self, ListenerAction::Nothing);
        match self.phase {
            ListenerPhase::Binding => match event {
                ListenerEvent::InstanceCreated => (
                    ListenerState { phase: ListenerPhase::Listening, listening: true, connected: false },
                    ListenerAction::Nothing,
                ),
                ListenerEvent::CreateFailed(e) => (
                    ListenerState { phase: ListenerPhase::Closed, listening: false, connected: false },
                    ListenerAction::Report(e),
                ),
                _ => unchanged,
            },
            ListenerPhase::Listening => match event {
                ListenerEvent::AcceptRequested => (self.with_phase(ListenerPhase::Connecting), ListenerAction::Connect),
                _ => unchanged,
            },
            ListenerPhase::Connecting => match event {
                ListenerEvent::ConnectSucceeded => (
                    ListenerState { phase: ListenerPhase::Replacing, listening: false, connected: true },
                    ListenerAction::CreateInstance { first_pipe_instance: false },
                ),
                ListenerEvent::ConnectWouldBlock => (
                    self.with_phase(ListenerPhase::AwaitingWritable),
                    ListenerAction::AwaitWritable,
                ),
                ListenerEvent::ConnectFailed(e) => (self.with_phase(ListenerPhase::Listening), ListenerAction::Report(e)),
                ListenerEvent::AcceptDropped => (self.with_phase(ListenerPhase::Listening), ListenerAction::Nothing),
                _ => unchanged,
            },
            ListenerPhase::AwaitingWritable => match event {
                ListenerEvent::Writable => (self.with_phase(ListenerPhase::Connecting), ListenerAction::Connect),
                ListenerEvent::ConnectFailed(e) => (self.with_phase(ListenerPhase::Listening), ListenerAction::Report(e)),
                ListenerEvent::AcceptDropped => (self.with_phase(ListenerPhase::Listening), ListenerAction::Nothing),
                _ => unchanged,
            },
            ListenerPhase::Replacing => match event {
                ListenerEvent::InstanceCreated => (
                    ListenerState { phase: ListenerPhase::Listening, listening: true, connected: false },
                    ListenerAction::YieldConnection,
                ),
                ListenerEvent::CreateFailed(e) => (
                    ListenerState { phase: ListenerPhase::Closed, listening: false, connected: false },
                    ListenerAction::Report(e),
                ),
                _ => unchanged,
            },
            _ => unchanged,
        }
    }
}

/// A listener on one named-pipe path: it holds the instance that waits for
/// the next client and replaces it before handing out each connection.
#[derive(Debug)]
pub struct NamedPipeServerListener {
    path: String,
    config: NamedPipeConfig,
    state: ListenerState,
}

impl View for NamedPipeServerListener {
    type V = ListenerState;

    closed spec fn view(&self) -> ListenerState {
        self.state
    }
}

impl NamedPipeServerListener {
    pub closed spec fn spec_path(&self) -> Seq<char> {
        self.path@
    }

    pub closed spec fn spec_config(&self) -> &NamedPipeConfig {
        &self.config
    }

    /// A listener for `path` that creates its instances as `config` says,
    /// with its first action: create the path's first instance.
    pub fn bind(path: String, config: NamedPipeConfig) -> (r: (NamedPipeServerListener, ListenerAction))
        ensures
            r.0@ == (ListenerState { phase: ListenerPhase::Binding, listening: false, connected: false }),
            r.0.spec_path() == path@,
            r.0.spec_config() == &config,
            r.1 == (ListenerAction::CreateInstance { first_pipe_instance: true }),
    {
        let mut listener = NamedPipeServerListener {
            path,
            config,
            state: ListenerState { phase: ListenerPhase::Idle, listening: false, connected: false },
        };
        let action = listener.listen();
        (listener, action)
    }

    /// Starts listening: an idle listener asks for its path's first instance.
    /// Any other listener is left as it is.
    pub fn listen(&mut self) -> (r: ListenerAction)
        ensures
            final(self).spec_path() == old(self).spec_path(),
            final(self).spec_config() == old(self).spec_config(),
            old(self)@.phase == ListenerPhase::Idle ==> {
                &&& final(self)@ == (ListenerState { phase: ListenerPhase::Binding, listening: false, connected: false })
                &&& r == (ListenerAction::CreateInstance { first_pipe_instance: true })
            },
            old(self)@.phase != ListenerPhase::Idle ==> final(self)@ == old(self)@ && r == ListenerAction::Nothing,
    {
        if self.state.phase == ListenerPhase::Idle {
            self.state = ListenerState { phase: ListenerPhase::Binding, listening: false, connected: false };
            ListenerAction::CreateInstance { first_pipe_instance: true }
        } else {
            ListenerAction::Nothing
        }
    }

    /// Takes what the runtime reports and says what it does next.
    pub fn on_event(&mut self, event: ListenerEvent) -> (r: ListenerAction)
        ensures
            (final(self)@, r) == old(self)@.next(event),
            final(self).spec_path() == old(self).spec_path(),
            final(self).spec_config() == old(self).spec_config(),
    {
        let s = self.state;
        match s.phase {
            ListenerPhase::Binding => match event {
                ListenerEvent::InstanceCreated => {
                    self.state = ListenerState { phase: ListenerPhase::Listening, listening: true, connected: false };
                    ListenerAction::Nothing
                },
                ListenerEvent::CreateFailed(e) => {
                    self.state = ListenerState { phase: ListenerPhase::Closed, listening: false, connected: false };
                    ListenerAction::Report(e)
                },
                _ => ListenerAction::Nothing,
            },
            ListenerPhase::Listening => match event {
                ListenerEvent::AcceptRequested => {
                    self.state = ListenerState { phase: ListenerPhase::Connecting, ..s };
                    ListenerAction::Connect
                },
                _ => ListenerAction::Nothing,
            },
            ListenerPhase::Connecting => match event {
                ListenerEvent::ConnectSucceeded => {
                    self.state = ListenerState { phase: ListenerPhase::Replacing, listening: false, connected: true };
                    ListenerAction::CreateInstance { first_pipe_instance: false }
                },
                ListenerEvent::ConnectWouldBlock => {
                    self.state = ListenerState { phase: ListenerPhase::AwaitingWritable, ..s };
                    ListenerAction::AwaitWritable
                },
                ListenerEvent::ConnectFailed(e) => {
                    self.state = ListenerState { phase: ListenerPhase::Listening, ..s };
                    ListenerAction::Report(e)
                },
                ListenerEvent::AcceptDropped => {
                    self.state = ListenerState { phase: ListenerPhase::Listening, ..s };
                    ListenerAction::Nothing
                },
                _ => ListenerAction::Nothing,
            },
            ListenerPhase::AwaitingWritable => match event {
                ListenerEvent::Writable => {
                    self.state = ListenerState { phase: ListenerPhase::Connecting, ..s };
                    ListenerAction::Connect
                },
                ListenerEvent::ConnectFailed(e) => {
                    self.state = ListenerState { phase: ListenerPhase::Listening, ..s };
                    ListenerAction::Report(e)
                },
                ListenerEvent::AcceptDropped => {
                    self.state = ListenerState { phase: ListenerPhase::Listening, ..s };
                    ListenerAction::Nothing
                },
                _ => ListenerAction::Nothing,
            },
            ListenerPhase::Replacing => match event {
                ListenerEvent::InstanceCreated => {
                    self.state = ListenerState { phase: ListenerPhase::Listening, listening: true, connected: false };
                    ListenerAction::YieldConnection
                },
                ListenerEvent::CreateFailed(e) => {
                    self.state = ListenerState { phase: ListenerPhase::Closed, listening: false, connected: false };
                    ListenerAction::Report(e)
                },
                _ => ListenerAction::Nothing,
            },
            _ => ListenerAction::Nothing,
        }
    }

    /// The options of the next instance to create.
    pub fn creation_options(&self, first_pipe_instance: bool) -> (r: CreateOptions)
        ensures
            r == options_of(self.spec_config(), first_pipe_instance),
    {
        CreateOptions {
            first_pipe_instance,
            reject_remote_clients: self.config.reject_remote_clients,
            access_inbound: self.config.inbound,
            access_outbound: self.config.outbound,
            in_buffer_size: self.config.in_buffer_size,
            out_buffer_size: self.config.out_buffer_size,
        }
    }

    /// The path the listener's instances are created at.
    pub fn path(&self) -> (r: &String)
        ensures
            r@ == self.spec_path(),
    {
        &self.path
    }

    /// The configuration the listener's instances are created with.
    pub fn config(&self) -> (r: &NamedPipeConfig)
        ensures
            r == self.spec_config(),
    {
        &self.config
    }

    pub fn state(&self) -> (r: ListenerState)
        ensures
            r == self@,
    {
        self.state
    }
}

/// Every event keeps the instances held in agreement with the phase.
pub proof fn lemma_next_preserves_wf(s: ListenerState, event: ListenerEvent)
    requires
        s.wf(),
    ensures
        s.next(event).0.wf(),
{
}

/// A connection is handed out only once its replacement listens: right
/// after the hand-off the listener holds a listening instance again, so the
/// path never lacks one between accepts.
pub proof fn lemma_rearmed_before_handoff(s: ListenerState, event: ListenerEvent)
    requires
        s.wf(),
        s.next(event).1 == ListenerAction::YieldConnection,
    ensures
        s.phase == ListenerPhase::Replacing,
        s.connected,
        event == ListenerEvent::InstanceCreated,
        s.next(event).0.phase == ListenerPhase::Listening,
        s.next(event).0.listening,
{
}

/// Only binding asks for the path's first instance; every replacement asks
/// for a further instance of it. A refused first instance closes the
/// listener and reports the system's error.
pub proof fn lemma_only_binding_is_exclusive(s: ListenerState, event: ListenerEvent, error: OsError)
    ensures
        s.next(event).1 matches ListenerAction::CreateInstance { first_pipe_instance } ==> !first_pipe_instance,
        s.phase == ListenerPhase::Binding ==> s.next(ListenerEvent::CreateFailed(error)) == (
            ListenerState { phase: ListenerPhase::Closed, listening: false, connected: false },
            ListenerAction::Report(error),
        ),
{
}

/// Abandoning an accept in flight keeps the listening instance, and the next
/// accept starts afresh.
pub proof fn lemma_dropped_accept_keeps_listener(s: ListenerState)
    requires
        s.wf(),
        s.phase == ListenerPhase::Connecting || s.phase == ListenerPhase::AwaitingWritable,
    ensures
        s.next(ListenerEvent::AcceptDropped).0 == s.with_phase(ListenerPhase::Listening),
        s.next(ListenerEvent::AcceptDropped).0.listening,
        s.next(ListenerEvent::AcceptDropped).0.next(ListenerEvent::AcceptRequested) == (
            s.with_phase(ListenerPhase::Connecting),
            ListenerAction::Connect,
        ),
{
}

/// A failed connect is reported once, and the listener keeps its instance
/// for the next accept.
pub proof fn lemma_failed_accept_keeps_listener(s: ListenerState, error: OsError)
    requires
        s.wf(),
        s.phase == ListenerPhase::Connecting || s.phase == ListenerPhase::AwaitingWritable,
    ensures
        s.next(ListenerEvent::ConnectFailed(error)) == (
            s.with_phase(ListenerPhase::Listening),
            ListenerAction::Report(error),
        ),
        s.next(ListenerEvent::ConnectFailed(error)).0.listening,
        s.next(ListenerEvent::ConnectFailed(error)).0.next(ListenerEvent::AcceptRequested).1
            == ListenerAction::Connect,
{
}

} // verus!
