use chat_relay::error::RelayError;
use chat_relay::writer::ConnectionWriter;
use chat_relay::writer::WriterInput;
use chat_relay::writer::WriterStep;

fn dequeued(line: &str) -> WriterInput {
    WriterInput::Dequeued(String::from(line))
}

#[test]
fn a_new_writer_runs() {
    let writer = ConnectionWriter::new(8);
    assert_eq!(writer.conn(), 8);
    assert!(!writer.has_ended());
}

#[test]
fn a_line_is_written_as_it_is() {
    let mut writer = ConnectionWriter::new(0);
    assert_eq!(
        writer.on_input(dequeued("alice: hi\n")),
        WriterStep::Write { bytes: b"alice: hi\n".to_vec() }
    );
    assert!(!writer.has_ended());
}

#[test]
fn a_line_beyond_ascii_is_written_as_utf8() {
    let mut writer = ConnectionWriter::new(0);
    assert_eq!(
        writer.on_input(dequeued("z\u{fc}rich: \u{4e16}\n")),
        WriterStep::Write {
            bytes: vec![
                0x7a, 0xc3, 0xbc, 0x72, 0x69, 0x63, 0x68, 0x3a, 0x20, 0xe4, 0xb8, 0x96, 0x0a,
            ],
        }
    );
}

#[test]
fn an_empty_line_is_an_empty_write() {
    let mut writer = ConnectionWriter::new(0);
    assert_eq!(writer.on_input(dequeued("")), WriterStep::Write { bytes: vec![] });
}

#[test]
fn lines_are_written_one_after_the_other() {
    let mut writer = ConnectionWriter::new(0);
    for line in ["a: 1\n", "b: 2\n", "a: 3\n"] {
        assert_eq!(
            writer.on_input(dequeued(line)),
            WriterStep::Write { bytes: line.as_bytes().to_vec() }
        );
    }
}

#[test]
fn a_closed_queue_ends_the_writer() {
    let mut writer = ConnectionWriter::new(0);
    assert_eq!(writer.on_input(WriterInput::QueueClosed), WriterStep::Finish);
    assert!(writer.has_ended());
}

#[test]
fn a_failed_write_ends_the_writer_with_a_socket_error() {
    let mut writer = ConnectionWriter::new(0);
    writer.on_input(dequeued("alice: hi\n"));
    assert_eq!(
        writer.on_input(WriterInput::WriteFailed),
        WriterStep::Fail { error: RelayError::SocketIo }
    );
    assert!(writer.has_ended());
}

#[test]
fn an_ended_writer_writes_nothing_more() {
    let mut writer = ConnectionWriter::new(0);
    writer.on_input(WriterInput::WriteFailed);
    assert_eq!(writer.on_input(dequeued("late\n")), WriterStep::Ignore);
    assert_eq!(writer.on_input(WriterInput::QueueClosed), WriterStep::Ignore);
    assert_eq!(writer.on_input(WriterInput::WriteFailed), WriterStep::Ignore);
    assert!(writer.has_ended());
}
