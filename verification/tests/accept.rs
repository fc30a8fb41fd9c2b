use chat_relay::accept::AcceptInput;
use chat_relay::accept::AcceptLoop;
use chat_relay::accept::AcceptPhase;
use chat_relay::accept::AcceptStep;
use chat_relay::error::RelayError;

fn accepted(addr: &str) -> AcceptInput {
    AcceptInput::Accepted { peer_addr: Some(String::from(addr)) }
}

fn listening() -> AcceptLoop {
    let mut acceptor = AcceptLoop::new();
    acceptor.on_input(AcceptInput::Bound);
    acceptor
}

#[test]
fn a_new_loop_is_not_bound() {
    let acceptor = AcceptLoop::new();
    assert_eq!(acceptor.phase(), AcceptPhase::Binding);
    assert_eq!(acceptor.served(), 0);
}

#[test]
fn a_bound_loop_starts_the_broker() {
    let mut acceptor = AcceptLoop::new();
    assert_eq!(acceptor.on_input(AcceptInput::Bound), AcceptStep::StartBroker);
    assert_eq!(acceptor.phase(), AcceptPhase::Listening);
}

#[test]
fn a_failed_bind_is_fatal() {
    let mut acceptor = AcceptLoop::new();
    assert_eq!(
        acceptor.on_input(AcceptInput::BindFailed),
        AcceptStep::Abort { error: RelayError::Bind }
    );
    assert_eq!(acceptor.phase(), AcceptPhase::Aborted);
}

#[test]
fn an_aborted_loop_serves_nobody() {
    let mut acceptor = AcceptLoop::new();
    acceptor.on_input(AcceptInput::BindFailed);
    assert_eq!(acceptor.on_input(accepted("127.0.0.1:5000")), AcceptStep::Ignore);
    assert_eq!(acceptor.on_input(AcceptInput::Bound), AcceptStep::Ignore);
    assert_eq!(acceptor.on_input(AcceptInput::AcceptFailed), AcceptStep::Ignore);
    assert_eq!(acceptor.on_input(AcceptInput::BindFailed), AcceptStep::Ignore);
    assert_eq!(acceptor.phase(), AcceptPhase::Aborted);
    assert_eq!(acceptor.served(), 0);
}

#[test]
fn an_unbound_loop_accepts_nothing() {
    let mut acceptor = AcceptLoop::new();
    assert_eq!(acceptor.on_input(accepted("127.0.0.1:5000")), AcceptStep::Ignore);
    assert_eq!(acceptor.on_input(AcceptInput::AcceptFailed), AcceptStep::Ignore);
    assert_eq!(acceptor.phase(), AcceptPhase::Binding);
    assert_eq!(acceptor.served(), 0);
}

#[test]
fn an_accepted_connection_gets_a_reader_and_a_log_line() {
    let mut acceptor = listening();
    assert_eq!(
        acceptor.on_input(accepted("127.0.0.1:50123")),
        AcceptStep::SpawnReader {
            conn: 0,
            log: Some(String::from("Accepting from: 127.0.0.1:50123")),
        }
    );
    assert_eq!(acceptor.served(), 1);
}

#[test]
fn a_connection_without_an_address_gets_a_reader_and_no_log_line() {
    let mut acceptor = listening();
    assert_eq!(
        acceptor.on_input(AcceptInput::Accepted { peer_addr: None }),
        AcceptStep::SpawnReader { conn: 0, log: None }
    );
    assert_eq!(acceptor.served(), 1);
}

#[test]
fn connections_are_numbered_in_order() {
    let mut acceptor = listening();
    for expected in 0..100u64 {
        match acceptor.on_input(accepted("[::1]:9")) {
            AcceptStep::SpawnReader { conn, .. } => assert_eq!(conn, expected),
            other => panic!("no reader: {:?}", other),
        }
    }
    assert_eq!(acceptor.served(), 100);
}

#[test]
fn a_failed_accept_does_not_stop_the_loop() {
    let mut acceptor = listening();
    acceptor.on_input(accepted("10.0.0.1:1"));
    assert_eq!(acceptor.on_input(AcceptInput::AcceptFailed), AcceptStep::Continue);
    assert_eq!(acceptor.on_input(AcceptInput::AcceptFailed), AcceptStep::Continue);
    assert_eq!(acceptor.phase(), AcceptPhase::Listening);
    assert_eq!(acceptor.served(), 1);
    assert_eq!(
        acceptor.on_input(accepted("10.0.0.2:2")),
        AcceptStep::SpawnReader { conn: 1, log: Some(String::from("Accepting from: 10.0.0.2:2")) }
    );
}

#[test]
fn a_second_bind_is_ignored() {
    let mut acceptor = listening();
    assert_eq!(acceptor.on_input(AcceptInput::Bound), AcceptStep::Ignore);
    assert_eq!(acceptor.on_input(AcceptInput::BindFailed), AcceptStep::Ignore);
    assert_eq!(acceptor.phase(), AcceptPhase::Listening);
}
