use wordclock::cli::{ParserResult, CLI};
use wordclock::serial::{SerialBuffer, SERIAL_BUFFER_CAPACITY};

#[test]
fn parser_is_a_stub() {
    let mut cli = CLI {};
    assert!(matches!(cli.next_char(b't'), ParserResult::ParserError));
    assert!(matches!(cli.next_char(b'\n'), ParserResult::ParserError));
    assert!(matches!(cli.next_char(0), ParserResult::ParserError));
}

#[test]
fn buffer_queues_and_drains_in_order() {
    let mut b = SerialBuffer::new();
    assert_eq!(b.dequeue(), None);
    assert_eq!(b.write_str("time"), Ok(()));
    assert_eq!(b.dequeue(), Some(b't'));
    assert_eq!(b.dequeue(), Some(b'i'));
    assert_eq!(b.write_str("!"), Ok(()));
    assert_eq!(b.dequeue(), Some(b'm'));
    assert_eq!(b.dequeue(), Some(b'e'));
    assert_eq!(b.dequeue(), Some(b'!'));
    assert_eq!(b.dequeue(), None);
}

#[test]
fn buffer_fills_to_capacity_then_rejects() {
    let mut b = SerialBuffer::new();
    assert_eq!(b.write_str("0123456789012345678901234567\r\n"), Ok(()));
    // thirty bytes sit in the buffer; only two more fit
    assert_eq!(b.write_str("abc"), Err(()));
    let mut drained = Vec::new();
    while let Some(byte) = b.dequeue() {
        drained.push(byte);
    }
    assert_eq!(drained.len(), SERIAL_BUFFER_CAPACITY);
    assert_eq!(&drained[30..], b"ab");
}

#[test]
fn buffer_write_at_exact_capacity_succeeds() {
    let mut b = SerialBuffer::new();
    let s = "x".repeat(SERIAL_BUFFER_CAPACITY);
    assert_eq!(b.write_str(&s), Ok(()));
    assert_eq!(b.write_str(""), Ok(()));
    assert_eq!(b.write_str("y"), Err(()));
}
