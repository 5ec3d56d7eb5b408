use frame_parse::read::{on_read, ReadEvent, ReadStep, READ_BUFFER_SIZE};

#[test]
fn no_bytes_is_a_shutdown() {
    assert_eq!(on_read(ReadEvent::Read(0)), ReadStep::Closed);
    assert!(on_read(ReadEvent::Read(0)).ends_loop());
}

#[test]
fn bytes_keep_the_loop_going() {
    assert_eq!(on_read(ReadEvent::Read(1)), ReadStep::Received(1));
    assert_eq!(
        on_read(ReadEvent::Read(READ_BUFFER_SIZE)),
        ReadStep::Received(4096)
    );
    assert!(!on_read(ReadEvent::Read(17)).ends_loop());
}

#[test]
fn would_block_is_no_error() {
    assert_eq!(on_read(ReadEvent::WouldBlock), ReadStep::Again);
    assert!(!on_read(ReadEvent::WouldBlock).ends_loop());
}

#[test]
fn a_failed_read_ends_the_loop() {
    assert_eq!(on_read(ReadEvent::Failed), ReadStep::Failed);
    assert!(on_read(ReadEvent::Failed).ends_loop());
}
