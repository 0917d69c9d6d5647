use relay::echo::{echo_step, EchoAction, EchoEvent, EchoPhase, ECHO_BUFFER_SIZE};
use relay::frame::{encode_frame, MESSAGE_SIZE};
use relay::reader::{reader_step, ReadEvent, ReaderAction, POLL_INTERVAL_MS};

#[test]
fn valid_frame_publishes_decoded_text() {
    let frame = encode_frame(&b"hi".to_vec(), MESSAGE_SIZE).unwrap();
    let action = reader_step(ReadEvent::Frame(frame));
    assert_eq!(action, ReaderAction::Publish(b"hi".to_vec()));
}

#[test]
fn invalid_utf8_payload_aborts_the_reader() {
    // 0xff never occurs in UTF-8 text
    let frame = encode_frame(&vec![0xffu8, 0xfeu8], MESSAGE_SIZE).unwrap();
    assert_eq!(reader_step(ReadEvent::Frame(frame)), ReaderAction::Abort);
}

#[test]
fn idle_socket_sleeps_one_poll_interval() {
    assert_eq!(reader_step(ReadEvent::WouldBlock), ReaderAction::Sleep(POLL_INTERVAL_MS));
    assert_eq!(POLL_INTERVAL_MS, 100);
}

#[test]
fn read_error_aborts_the_reader() {
    assert_eq!(reader_step(ReadEvent::Failed), ReaderAction::Abort);
}

#[test]
fn first_read_announces_the_username() {
    let mut buffer = vec![0u8; ECHO_BUFFER_SIZE];
    buffer[..5].copy_from_slice(b"alice");
    let (phase, action) = echo_step(EchoPhase::AwaitUsername, &buffer, EchoEvent::Data(5));
    assert_eq!(phase, EchoPhase::Chatting);
    assert_eq!(action, EchoAction::Announce(b"alice".to_vec()));
}

#[test]
fn later_reads_echo_the_whole_raw_buffer() {
    // the buffer still carries stale bytes beyond the newly read prefix,
    // and the echo sends them along verbatim
    let mut buffer = vec![0u8; ECHO_BUFFER_SIZE];
    buffer[..5].copy_from_slice(b"alice");
    buffer[..3].copy_from_slice(b"hey");
    let (phase, action) = echo_step(EchoPhase::Chatting, &buffer, EchoEvent::Data(3));
    assert_eq!(phase, EchoPhase::Chatting);
    assert_eq!(action, EchoAction::EchoBack(buffer));
}

#[test]
fn zero_byte_read_finishes_cleanly() {
    let buffer = vec![0u8; ECHO_BUFFER_SIZE];
    let (phase, action) = echo_step(EchoPhase::Chatting, &buffer, EchoEvent::Eof);
    assert_eq!(phase, EchoPhase::Chatting);
    assert_eq!(action, EchoAction::Finish);
}

#[test]
fn read_error_fails_the_handler() {
    let buffer = vec![0u8; ECHO_BUFFER_SIZE];
    let (phase, action) = echo_step(EchoPhase::AwaitUsername, &buffer, EchoEvent::Failed);
    assert_eq!(phase, EchoPhase::AwaitUsername);
    assert_eq!(action, EchoAction::Fail);
}
