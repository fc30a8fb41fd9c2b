use chat_relay::cipher::Cipher;
use chat_relay::error::RelayError;
use chat_relay::event::Event;
use chat_relay::reader::ConnectionReader;
use chat_relay::reader::ReaderInput;
use chat_relay::reader::ReaderState;
use chat_relay::reader::ReaderStep;

fn reader(conn: u64) -> ConnectionReader {
    ConnectionReader::new(conn, Cipher::new("swordfish"))
}

fn named(conn: u64, name: &str) -> ConnectionReader {
    let mut reader = reader(conn);
    reader.on_input(ReaderInput::Line(String::from(name)));
    reader
}

fn line(text: &str) -> ReaderInput {
    ReaderInput::Line(String::from(text))
}

#[test]
fn a_new_reader_awaits_the_name() {
    let reader = reader(5);
    assert_eq!(reader.conn(), 5);
    assert_eq!(*reader.state(), ReaderState::AwaitingName);
    assert!(!reader.has_ended());
}

#[test]
fn the_first_line_is_the_name() {
    let mut reader = reader(5);
    let step = reader.on_input(line("alice"));
    assert_eq!(
        step,
        ReaderStep::Announce { event: Event::NewPeer { name: String::from("alice"), conn: 5 } }
    );
    assert_eq!(*reader.state(), ReaderState::Relaying { name: String::from("alice") });
}

#[test]
fn the_name_is_not_decrypted() {
    let mut reader = reader(0);
    let name = Cipher::new("swordfish").encrypt("alice");
    let step = reader.on_input(line(&name));
    assert_eq!(step, ReaderStep::Announce { event: Event::NewPeer { name, conn: 0 } });
}

#[test]
fn the_empty_name_is_a_name() {
    let mut reader = reader(1);
    let step = reader.on_input(line(""));
    assert_eq!(
        step,
        ReaderStep::Announce { event: Event::NewPeer { name: String::new(), conn: 1 } }
    );
}

#[test]
fn leaving_before_the_name_is_an_error_without_an_event() {
    let mut reader = reader(2);
    let step = reader.on_input(ReaderInput::EndOfStream);
    assert_eq!(step, ReaderStep::Fail { error: RelayError::PeerDisconnectedImmediately });
    assert!(reader.has_ended());
}

#[test]
fn a_failed_read_before_the_name_is_a_socket_error() {
    let mut reader = reader(2);
    let step = reader.on_input(ReaderInput::ReadFailed);
    assert_eq!(step, ReaderStep::Fail { error: RelayError::SocketIo });
    assert!(reader.has_ended());
}

#[test]
fn a_line_that_decrypts_is_relayed_and_logged() {
    let mut reader = named(3, "alice");
    let step = reader.on_input(line(&Cipher::new("swordfish").encrypt("hi")));
    assert_eq!(
        step,
        ReaderStep::Relay {
            event: Event::Message { from: String::from("alice"), msg: String::from("hi") },
            log: String::from("alice: hi"),
        }
    );
    assert_eq!(*reader.state(), ReaderState::Relaying { name: String::from("alice") });
}

#[test]
fn every_line_that_decrypts_is_relayed_in_turn() {
    let cipher = Cipher::new("swordfish");
    let mut reader = named(3, "bob");
    for text in ["one", "", "three: 3", "  four  "] {
        let step = reader.on_input(line(&cipher.encrypt(text)));
        assert_eq!(
            step,
            ReaderStep::Relay {
                event: Event::Message { from: String::from("bob"), msg: String::from(text) },
                log: format!("bob: {}", text),
            }
        );
    }
    assert!(!reader.has_ended());
}

#[test]
fn a_line_under_another_passphrase_ends_the_reader_quietly() {
    let mut reader = named(3, "bob");
    let step = reader.on_input(line(&Cipher::new("marlin").encrypt("hello")));
    assert_eq!(step, ReaderStep::Reject { log: String::from("bob used invalid password") });
    assert!(reader.has_ended());
}

#[test]
fn a_plain_line_ends_the_reader_quietly() {
    let mut reader = named(3, "bob");
    let step = reader.on_input(line("hello"));
    assert_eq!(step, ReaderStep::Reject { log: String::from("bob used invalid password") });
    assert_eq!(*reader.state(), ReaderState::Closed);
}

#[test]
fn a_rejected_reader_ignores_what_follows() {
    let cipher = Cipher::new("swordfish");
    let mut reader = named(3, "bob");
    reader.on_input(line("not ciphertext"));
    assert_eq!(reader.on_input(line(&cipher.encrypt("sorry"))), ReaderStep::Ignore);
    assert_eq!(reader.on_input(ReaderInput::EndOfStream), ReaderStep::Ignore);
    assert_eq!(reader.on_input(ReaderInput::ReadFailed), ReaderStep::Ignore);
    assert_eq!(reader.on_decrypted(Ok(String::from("sorry"))), ReaderStep::Ignore);
    assert!(reader.has_ended());
}

#[test]
fn leaving_after_the_name_is_no_error() {
    let mut reader = named(4, "carol");
    assert_eq!(reader.on_input(ReaderInput::EndOfStream), ReaderStep::Finish);
    assert!(reader.has_ended());
    assert_eq!(reader.on_input(ReaderInput::EndOfStream), ReaderStep::Ignore);
}

#[test]
fn a_failed_read_after_the_name_is_a_socket_error() {
    let mut reader = named(4, "carol");
    assert_eq!(
        reader.on_input(ReaderInput::ReadFailed),
        ReaderStep::Fail { error: RelayError::SocketIo }
    );
    assert!(reader.has_ended());
}

#[test]
fn on_line_is_on_input_with_a_line() {
    let mut reader = reader(9);
    assert_eq!(
        reader.on_line(String::from("dave")),
        ReaderStep::Announce { event: Event::NewPeer { name: String::from("dave"), conn: 9 } }
    );
    assert_eq!(
        reader.on_line(Cipher::new("swordfish").encrypt("yo")),
        ReaderStep::Relay {
            event: Event::Message { from: String::from("dave"), msg: String::from("yo") },
            log: String::from("dave: yo"),
        }
    );
}

#[test]
fn a_decrypted_text_is_relayed() {
    let mut reader = named(6, "erin");
    assert_eq!(
        reader.on_decrypted(Ok(String::from("hey"))),
        ReaderStep::Relay {
            event: Event::Message { from: String::from("erin"), msg: String::from("hey") },
            log: String::from("erin: hey"),
        }
    );
    assert!(!reader.has_ended());
}

#[test]
fn a_failed_decryption_is_rejected() {
    let mut reader = named(6, "erin");
    assert_eq!(
        reader.on_decrypted(Err(RelayError::DecryptionFailure)),
        ReaderStep::Reject { log: String::from("erin used invalid password") }
    );
    assert!(reader.has_ended());
}

#[test]
fn a_reader_without_a_name_ignores_a_decryption() {
    let mut reader = reader(6);
    assert_eq!(reader.on_decrypted(Ok(String::from("hey"))), ReaderStep::Ignore);
    assert_eq!(reader.on_decrypted(Err(RelayError::DecryptionFailure)), ReaderStep::Ignore);
    assert_eq!(*reader.state(), ReaderState::AwaitingName);
}

#[test]
fn any_failure_of_the_decryption_is_rejected() {
    let mut reader = named(6, "erin");
    assert_eq!(
        reader.on_decrypted(Err(RelayError::SocketIo)),
        ReaderStep::Reject { log: String::from("erin used invalid password") }
    );
}

#[test]
fn an_event_that_could_not_be_submitted_is_passed_over() {
    let cipher = Cipher::new("swordfish");
    let mut reader = named(7, "frank");
    assert_eq!(
        reader.on_input(ReaderInput::SubmitFailed),
        ReaderStep::PassOver { error: RelayError::ChannelClosed }
    );
    assert_eq!(*reader.state(), ReaderState::Relaying { name: String::from("frank") });
    assert_eq!(
        reader.on_input(line(&cipher.encrypt("anyone?"))),
        ReaderStep::Relay {
            event: Event::Message { from: String::from("frank"), msg: String::from("anyone?") },
            log: String::from("frank: anyone?"),
        }
    );
}

#[test]
fn an_ended_reader_passes_nothing_over() {
    let mut reader = named(7, "frank");
    reader.on_input(ReaderInput::EndOfStream);
    assert_eq!(reader.on_input(ReaderInput::SubmitFailed), ReaderStep::Ignore);
    assert!(reader.has_ended());
}
