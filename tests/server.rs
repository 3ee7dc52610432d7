use tokio_named_pipe::config::NamedPipeConfig;
use tokio_named_pipe::error::OsError;
use tokio_named_pipe::server::{ListenerAction, ListenerEvent, ListenerPhase, NamedPipeServerListener};

const PATH: &str = r"\\.\pipe\listener-test";

fn bound() -> NamedPipeServerListener {
    let (mut l, a) = NamedPipeServerListener::bind(PATH.to_string(), NamedPipeConfig::default());
    assert_eq!(a, ListenerAction::CreateInstance { first_pipe_instance: true });
    assert_eq!(l.on_event(ListenerEvent::InstanceCreated), ListenerAction::Nothing);
    l
}

fn accept(l: &mut NamedPipeServerListener) {
    assert_eq!(l.on_event(ListenerEvent::AcceptRequested), ListenerAction::Connect);
    assert_eq!(
        l.on_event(ListenerEvent::ConnectSucceeded),
        ListenerAction::CreateInstance { first_pipe_instance: false }
    );
    assert_eq!(l.on_event(ListenerEvent::InstanceCreated), ListenerAction::YieldConnection);
}

#[test]
fn two_clients_without_rebinding() {
    let mut l = bound();
    accept(&mut l);
    assert_eq!(l.state().phase, ListenerPhase::Listening);
    accept(&mut l);
    assert_eq!(l.path(), PATH);
}

#[test]
fn listening_again_when_connection_is_handed_out() {
    let mut l = bound();
    accept(&mut l);
    let s = l.state();
    assert_eq!(s.phase, ListenerPhase::Listening);
    assert!(s.listening);
    assert!(!s.connected);
}

#[test]
fn bind_asks_for_exclusive_first_instance_and_fails_on_refusal() {
    let (mut l, a) = NamedPipeServerListener::bind(PATH.to_string(), NamedPipeConfig::default());
    assert_eq!(a, ListenerAction::CreateInstance { first_pipe_instance: true });
    assert_eq!(l.on_event(ListenerEvent::CreateFailed(OsError::new(231))), ListenerAction::Report(OsError::new(231)));
    assert_eq!(l.state().phase, ListenerPhase::Closed);
    assert_eq!(l.on_event(ListenerEvent::AcceptRequested), ListenerAction::Nothing);
}

#[test]
fn listen_twice_asks_nothing_more() {
    let mut l = bound();
    assert_eq!(l.listen(), ListenerAction::Nothing);
    assert_eq!(l.state().phase, ListenerPhase::Listening);
}

#[test]
fn dropped_accept_leaves_listener_usable() {
    let mut l = bound();
    assert_eq!(l.on_event(ListenerEvent::AcceptRequested), ListenerAction::Connect);
    assert_eq!(l.on_event(ListenerEvent::ConnectWouldBlock), ListenerAction::AwaitWritable);
    assert_eq!(l.on_event(ListenerEvent::AcceptDropped), ListenerAction::Nothing);
    assert!(l.state().listening);
    accept(&mut l);
}

#[test]
fn would_block_waits_for_writable() {
    let mut l = bound();
    assert_eq!(l.on_event(ListenerEvent::AcceptRequested), ListenerAction::Connect);
    assert_eq!(l.on_event(ListenerEvent::ConnectWouldBlock), ListenerAction::AwaitWritable);
    assert_eq!(l.state().phase, ListenerPhase::AwaitingWritable);
    assert_eq!(l.on_event(ListenerEvent::Writable), ListenerAction::Connect);
    assert_eq!(
        l.on_event(ListenerEvent::ConnectSucceeded),
        ListenerAction::CreateInstance { first_pipe_instance: false }
    );
    assert_eq!(l.on_event(ListenerEvent::InstanceCreated), ListenerAction::YieldConnection);
}

#[test]
fn failed_connect_is_reported_and_listener_kept() {
    let mut l = bound();
    l.on_event(ListenerEvent::AcceptRequested);
    assert_eq!(l.on_event(ListenerEvent::ConnectFailed(OsError::new(232))), ListenerAction::Report(OsError::new(232)));
    assert_eq!(l.state().phase, ListenerPhase::Listening);
    accept(&mut l);
}

#[test]
fn failed_replacement_closes_listener() {
    let mut l = bound();
    l.on_event(ListenerEvent::AcceptRequested);
    l.on_event(ListenerEvent::ConnectSucceeded);
    assert_eq!(l.on_event(ListenerEvent::CreateFailed(OsError::new(5))), ListenerAction::Report(OsError::new(5)));
    let s = l.state();
    assert_eq!(s.phase, ListenerPhase::Closed);
    assert!(!s.listening && !s.connected);
}

#[test]
fn events_out_of_phase_change_nothing() {
    let mut l = bound();
    assert_eq!(l.on_event(ListenerEvent::Writable), ListenerAction::Nothing);
    assert_eq!(l.on_event(ListenerEvent::InstanceCreated), ListenerAction::Nothing);
    assert_eq!(l.state().phase, ListenerPhase::Listening);
}

#[test]
fn creation_options_follow_config() {
    let mut c = NamedPipeConfig::default();
    c.inbound = false;
    c.in_buffer_size = 512;
    c.out_buffer_size = 1024;
    c.reject_remote_clients = false;
    let (l, _) = NamedPipeServerListener::bind(PATH.to_string(), c);
    let o = l.creation_options(true);
    assert!(o.first_pipe_instance);
    assert!(!o.access_inbound && o.access_outbound);
    assert_eq!((o.in_buffer_size, o.out_buffer_size), (512, 1024));
    assert!(!o.reject_remote_clients);
    assert!(!l.creation_options(false).first_pipe_instance);
    assert_eq!(l.config().in_buffer_size, 512);
}
