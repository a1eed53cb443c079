use ws_broadcast::handler::{ConnectionHandler, ConnectionPhase};
use ws_broadcast::server::{CommandError, Supervisor};

#[test]
fn start_twice_is_refused_and_keeps_first_run() {
    let mut s = Supervisor::new();
    let run = s.start(7000).unwrap();
    let mut a = ConnectionHandler::new(run, 1);
    assert!(a.on_open(Some("10.0.0.1".to_string()), &mut s).is_some());
    let second = s.start(8000);
    assert!(matches!(second, Err(CommandError::AlreadyRunning)));
    assert_eq!(s.running_port(), Some(7000));
    assert_eq!(s.client_count(), 1);
    assert!(s.current(run));
    assert_eq!(s.broadcast_targets().unwrap(), vec![1]);
}

#[test]
fn start_after_stop_begins_new_run() {
    let mut s = Supervisor::new();
    let first = s.start(7000).unwrap();
    assert!(s.stop());
    assert!(!s.running());
    assert!(!s.stop());
    let second = s.start(7001).unwrap();
    assert_ne!(first, second);
    assert_eq!(s.running_port(), Some(7001));
    assert_eq!(s.client_count(), 0);
}

#[test]
fn broadcast_when_stopped_is_not_running() {
    let s = Supervisor::new();
    assert!(matches!(s.broadcast_targets(), Err(CommandError::NotRunning)));
}

#[test]
fn broadcast_with_no_clients_is_no_clients() {
    let mut s = Supervisor::new();
    s.start(7000).unwrap();
    assert!(matches!(s.broadcast_targets(), Err(CommandError::NoClients)));
}

#[test]
fn listener_end_stops_only_its_run() {
    let mut s = Supervisor::new();
    let first = s.start(7000).unwrap();
    assert!(s.stop());
    let second = s.start(7000).unwrap();
    assert!(!s.listener_ended(first));
    assert!(s.running());
    assert!(s.listener_ended(second));
    assert!(!s.running());
    assert_eq!(s.running_port(), None);
    assert_eq!(s.client_count(), 0);
}

#[test]
fn events_of_an_old_run_are_ignored() {
    let mut s = Supervisor::new();
    let first = s.start(7000).unwrap();
    s.stop();
    let second = s.start(7000).unwrap();
    assert!(!s.client_opened(first, 5));
    assert_eq!(s.client_count(), 0);
    assert!(s.client_opened(second, 5));
    assert!(!s.client_closed(first, 5));
    assert_eq!(s.client_count(), 1);
}

#[test]
fn opens_and_closes_count() {
    let mut s = Supervisor::new();
    let run = s.start(7000).unwrap();
    let mut handlers: Vec<ConnectionHandler> = Vec::new();
    for id in 0..5u64 {
        let mut h = ConnectionHandler::new(run, id);
        h.on_open(None, &mut s);
        handlers.push(h);
        assert_eq!(s.client_count(), id as usize + 1);
    }
    for (n, h) in handlers.iter_mut().enumerate() {
        assert!(h.on_close(1000, String::new(), &mut s).is_some());
        assert_eq!(s.client_count(), 4 - n);
    }
    assert_eq!(s.client_count(), 0);
    assert!(matches!(s.broadcast_targets(), Err(CommandError::NoClients)));
}

#[test]
fn second_close_has_no_effect() {
    let mut s = Supervisor::new();
    let run = s.start(7000).unwrap();
    let mut a = ConnectionHandler::new(run, 1);
    let mut b = ConnectionHandler::new(run, 2);
    a.on_open(None, &mut s);
    b.on_open(None, &mut s);
    assert!(a.on_close(1006, "error".to_string(), &mut s).is_some());
    assert!(a.on_close(1000, String::new(), &mut s).is_none());
    assert_eq!(a.current_phase(), ConnectionPhase::Closed);
    assert_eq!(s.client_count(), 1);
    assert!(!s.client_closed(run, 1));
    assert_eq!(s.client_count(), 1);
}

#[test]
fn duplicate_open_is_registered_once() {
    let mut s = Supervisor::new();
    let run = s.start(7000).unwrap();
    assert!(s.client_opened(run, 9));
    assert!(!s.client_opened(run, 9));
    assert_eq!(s.client_count(), 1);
    let mut h = ConnectionHandler::new(run, 3);
    assert!(h.on_open(None, &mut s).is_some());
    assert!(h.on_open(None, &mut s).is_none());
    assert_eq!(s.client_count(), 2);
}

#[test]
fn interleaved_opens_closes_and_broadcast_stay_consistent() {
    let mut s = Supervisor::new();
    let run = s.start(7000).unwrap();
    let mut a = ConnectionHandler::new(run, 1);
    let mut b = ConnectionHandler::new(run, 2);
    let mut c = ConnectionHandler::new(run, 3);
    a.on_open(None, &mut s);
    b.on_open(None, &mut s);
    let snapshot = s.broadcast_targets().unwrap();
    a.on_close(1000, String::new(), &mut s);
    c.on_open(None, &mut s);
    assert_eq!(snapshot, vec![1, 2]);
    let mut now = s.broadcast_targets().unwrap();
    now.sort();
    assert_eq!(now, vec![2, 3]);
    b.on_close(1000, String::new(), &mut s);
    assert_eq!(s.broadcast_targets().unwrap(), vec![3]);
    c.on_close(1000, String::new(), &mut s);
    assert!(matches!(s.broadcast_targets(), Err(CommandError::NoClients)));
}

#[test]
fn close_before_open_leaves_registry_empty() {
    let mut s = Supervisor::new();
    let run = s.start(7000).unwrap();
    let mut h = ConnectionHandler::new(run, 4);
    assert!(h.on_close(1002, "protocol".to_string(), &mut s).is_some());
    assert!(h.on_open(None, &mut s).is_none());
    assert_eq!(s.client_count(), 0);
}

#[test]
fn error_messages() {
    assert_eq!(CommandError::AlreadyRunning.message(), "server already running");
    assert_eq!(CommandError::NotRunning.message(), "server not running");
    assert_eq!(CommandError::NoClients.message(), "no connected clients");
    let e = CommandError::SendFailed { client: 2, cause: "broken pipe".to_string() };
    assert_eq!(e.message(), "send failed: broken pipe");
}
