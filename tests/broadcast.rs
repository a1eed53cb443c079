use ws_broadcast::dispatch::{Dispatch, DispatchAction};
use ws_broadcast::handler::ConnectionHandler;
use ws_broadcast::server::{CommandError, Supervisor};

/// Drives a broadcast to its end; sends to the ids in `failing` fail.
/// Returns the ids tried, in order, and the outcome.
fn drive(targets: Vec<u64>, failing: &[u64]) -> (Vec<u64>, Result<usize, CommandError>) {
    let mut d = Dispatch::new(targets);
    let mut tried = Vec::new();
    loop {
        match d.next_action() {
            DispatchAction::Send(id) => {
                tried.push(id);
                if failing.contains(&id) {
                    d.report(Err(format!("client {} gone", id)));
                } else {
                    d.report(Ok(()));
                }
            }
            DispatchAction::Finished(outcome) => return (tried, outcome),
        }
    }
}

#[test]
fn failure_at_second_client_stops_the_broadcast() {
    let (tried, outcome) = drive(vec![10, 20, 30], &[20]);
    assert_eq!(tried, vec![10, 20]);
    match outcome {
        Err(CommandError::SendFailed { client, cause }) => {
            assert_eq!(client, 20);
            assert_eq!(cause, "client 20 gone");
        }
        _ => panic!("expected a failed send"),
    }
}

#[test]
fn failure_at_first_client_tries_nothing_else() {
    let (tried, outcome) = drive(vec![10, 20, 30], &[10, 30]);
    assert_eq!(tried, vec![10]);
    assert!(matches!(outcome, Err(CommandError::SendFailed { client: 10, .. })));
}

#[test]
fn all_sends_succeed() {
    let (tried, outcome) = drive(vec![10, 20, 30], &[]);
    assert_eq!(tried, vec![10, 20, 30]);
    assert!(matches!(outcome, Ok(3)));
}

#[test]
fn empty_dispatch_finishes_at_once() {
    let (tried, outcome) = drive(Vec::new(), &[]);
    assert!(tried.is_empty());
    assert!(matches!(outcome, Ok(0)));
}

/// Broadcasts `text` from the server to the clients' inboxes, indexed by id.
fn broadcast(s: &Supervisor, inboxes: &mut [Vec<String>], text: &str) -> Result<usize, CommandError> {
    let targets = s.broadcast_targets()?;
    let mut d = Dispatch::new(targets);
    loop {
        match d.next_action() {
            DispatchAction::Send(id) => {
                inboxes[id as usize].push(text.to_string());
                d.report(Ok(()));
            }
            DispatchAction::Finished(outcome) => return outcome,
        }
    }
}

#[test]
fn end_to_end_two_clients() {
    let mut s = Supervisor::new();
    let run = s.start(7000).unwrap();
    let mut inboxes: Vec<Vec<String>> = vec![Vec::new(), Vec::new()];
    let mut a = ConnectionHandler::new(run, 0);
    let mut b = ConnectionHandler::new(run, 1);
    a.on_open(Some("10.0.0.1".to_string()), &mut s);
    b.on_open(Some("10.0.0.2".to_string()), &mut s);
    assert_eq!(s.client_count(), 2);
    assert!(matches!(broadcast(&s, &mut inboxes, "hi"), Ok(2)));
    assert_eq!(inboxes[0], vec!["hi".to_string()]);
    assert_eq!(inboxes[1], vec!["hi".to_string()]);
    a.on_close(1000, String::new(), &mut s);
    assert_eq!(s.client_count(), 1);
    assert!(matches!(broadcast(&s, &mut inboxes, "bye"), Ok(1)));
    assert_eq!(inboxes[0], vec!["hi".to_string()]);
    assert_eq!(inboxes[1], vec!["hi".to_string(), "bye".to_string()]);
}
