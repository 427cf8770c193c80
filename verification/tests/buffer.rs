use simple_reactor::buffer::{EXTRA_READ_SIZE, INITIAL_SIZE, PREPEND_SIZE};
use simple_reactor::tcp_connection::IoOutcome;
use simple_reactor::Buffer;

#[test]
fn test_buffer_creation() {
    let buffer = Buffer::new();
    assert_eq!(buffer.readable_bytes(), 0);
    assert!(buffer.writable_bytes() > 0);
}

#[test]
fn test_append_and_read() {
    let mut buffer = Buffer::new();
    let data = b"Hello, World!";

    buffer.append(data);
    assert_eq!(buffer.readable_bytes(), data.len());

    let read_data = buffer.peek(data.len()).unwrap();
    assert_eq!(read_data, data);

    buffer.retrieve(5);
    assert_eq!(buffer.readable_bytes(), data.len() - 5);

    let remaining = buffer.peek(buffer.readable_bytes()).unwrap();
    assert_eq!(remaining, b", World!");
}

#[test]
fn test_string_operations() {
    let mut buffer = Buffer::new();
    buffer.append_string("Hello, 世界!");

    let result = buffer.retrieve_all_as_string();
    assert_eq!(result, "Hello, 世界!");
    assert_eq!(buffer.readable_bytes(), 0);
}

#[test]
fn test_line_reading() {
    let mut buffer = Buffer::new();
    buffer.append(b"Line 1\r\nLine 2\nLine 3\r\n");

    let line1 = buffer.read_line().unwrap();
    assert_eq!(line1, "Line 1");

    let line2 = buffer.read_line().unwrap();
    assert_eq!(line2, "Line 2");

    let line3 = buffer.read_line().unwrap();
    assert_eq!(line3, "Line 3");

    assert!(buffer.read_line().is_none());
}

#[test]
fn test_find_bytes() {
    let mut buffer = Buffer::new();
    buffer.append(b"Hello, World! How are you?");

    let pos = buffer.find_bytes(b"World").unwrap();
    assert_eq!(pos, 7);

    let pos = buffer.find_bytes(b"xyz");
    assert!(pos.is_none());
}

#[test]
fn test_read_until() {
    let mut buffer = Buffer::new();
    buffer.append(b"GET /path HTTP/1.1\r\nHost: example.com\r\n");

    let first_line = buffer.read_until(b"\r\n").unwrap();
    assert_eq!(first_line, b"GET /path HTTP/1.1");

    let second_line = buffer.read_until(b"\r\n").unwrap();
    assert_eq!(second_line, b"Host: example.com");
}

#[test]
fn test_buffer_growth() {
    let mut buffer = Buffer::with_initial_size(10);
    let large_data = vec![b'x'; 2000];

    buffer.append(&large_data);
    assert_eq!(buffer.readable_bytes(), 2000);

    let read_back = buffer.peek(2000).unwrap();
    assert_eq!(read_back, &large_data[..]);
}

#[test]
fn test_write_trait() {
    let mut buffer = Buffer::new();
    let text = format!("Hello, {}!", "World");
    let written = buffer.write(text.as_bytes());
    assert_eq!(written, 13);
    buffer.flush();

    let result = buffer.retrieve_all_as_string();
    assert_eq!(result, "Hello, World!");
}

#[test]
fn test_space_optimization() {
    let mut buffer = Buffer::new();

    buffer.append(b"0123456789");
    assert_eq!(buffer.readable_bytes(), 10);

    buffer.retrieve(5);
    assert_eq!(buffer.readable_bytes(), 5);

    buffer.retrieve(5);
    assert_eq!(buffer.readable_bytes(), 0);
    assert_eq!(buffer.reader_index(), PREPEND_SIZE);
    assert_eq!(buffer.writer_index(), PREPEND_SIZE);
}

#[test]
fn test_retrieve_as_string() {
    let mut buffer = Buffer::new();
    buffer.append(b"Hello, World!");

    let hello = buffer.retrieve_as_string(5).unwrap();
    assert_eq!(hello, "Hello");
    assert_eq!(buffer.readable_bytes(), 8);

    let remaining = buffer.retrieve_as_string(100);
    assert!(remaining.is_none());

    let world = buffer.retrieve_as_string(8).unwrap();
    assert_eq!(world, ", World!");
    assert_eq!(buffer.readable_bytes(), 0);
}

#[test]
fn new_buffer_has_reserve_and_initial_room() {
    let buffer = Buffer::new();
    assert_eq!(buffer.prepend_bytes(), PREPEND_SIZE);
    assert_eq!(buffer.reader_index(), 8);
    assert_eq!(buffer.writer_index(), 8);
    assert_eq!(buffer.writable_bytes(), INITIAL_SIZE);
    let small = Buffer::with_initial_size(0);
    assert_eq!(small.writable_bytes(), 0);
    assert_eq!(small.readable_bytes(), 0);
    let standard = Buffer::default();
    assert_eq!(standard.writable_bytes(), 1024);
}

#[test]
fn cursors_stay_in_order() {
    let mut buffer = Buffer::with_initial_size(16);
    let capacity = |b: &Buffer| b.writer_index() + b.writable_bytes();
    for round in 0..50usize {
        buffer.append(&vec![round as u8; round % 7 + 1]);
        assert!(PREPEND_SIZE <= buffer.reader_index());
        assert!(buffer.reader_index() <= buffer.writer_index());
        assert!(buffer.writer_index() <= capacity(&buffer));
        assert_eq!(buffer.readable_bytes(), buffer.writer_index() - buffer.reader_index());
        buffer.retrieve(round % 5);
        assert!(PREPEND_SIZE <= buffer.reader_index());
        assert!(buffer.reader_index() <= buffer.writer_index());
        assert_eq!(buffer.readable_bytes(), buffer.writer_index() - buffer.reader_index());
    }
}

#[test]
fn retrieve_of_everything_resets_cursors() {
    let mut buffer = Buffer::new();
    buffer.append(b"abcdef");
    buffer.retrieve(2);
    assert_eq!(buffer.reader_index(), 10);
    assert_eq!(buffer.writer_index(), 14);
    buffer.retrieve(4);
    assert_eq!(buffer.reader_index(), 8);
    assert_eq!(buffer.writer_index(), 8);
}

#[test]
fn retrieve_of_too_much_changes_nothing() {
    let mut buffer = Buffer::new();
    buffer.append(b"abc");
    buffer.retrieve(4);
    assert_eq!(buffer.as_slice(), b"abc");
    assert_eq!(buffer.reader_index(), 8);
    assert_eq!(buffer.writer_index(), 11);
}

#[test]
fn retrieve_all_resets_cursors() {
    let mut buffer = Buffer::new();
    buffer.append(b"abcdef");
    buffer.retrieve(1);
    buffer.retrieve_all();
    assert_eq!(buffer.readable_bytes(), 0);
    assert_eq!(buffer.reader_index(), 8);
    assert_eq!(buffer.writer_index(), 8);
    assert_eq!(buffer.writable_bytes(), 1024);
}

#[test]
fn peek_more_than_readable_is_none() {
    let mut buffer = Buffer::new();
    assert!(buffer.peek(1).is_none());
    assert_eq!(buffer.peek(0).unwrap(), b"");
    buffer.append(b"xy");
    assert!(buffer.peek(3).is_none());
    assert_eq!(buffer.peek(1).unwrap(), b"x");
    assert_eq!(buffer.readable_bytes(), 2);
}

#[test]
fn append_peek_retrieve_drains_exactly() {
    let mut buffer = Buffer::new();
    let data: Vec<u8> = (0..200u8).collect();
    buffer.append(&data);
    let mut seen: Vec<u8> = Vec::new();
    while buffer.readable_bytes() > 0 {
        let step = std::cmp::min(7, buffer.readable_bytes());
        seen.extend_from_slice(buffer.peek(step).unwrap());
        buffer.retrieve(step);
    }
    assert_eq!(seen, data);
    assert_eq!(buffer.reader_index(), PREPEND_SIZE);
    assert_eq!(buffer.writer_index(), PREPEND_SIZE);
}

#[test]
fn append_compacts_when_front_space_suffices() {
    let mut buffer = Buffer::with_initial_size(10);
    buffer.append(b"0123456789");
    assert_eq!(buffer.writable_bytes(), 0);
    buffer.retrieve(6);
    assert_eq!(buffer.reader_index(), 14);
    buffer.append(b"abcde");
    assert_eq!(buffer.as_slice(), b"6789abcde");
    assert_eq!(buffer.reader_index(), 8);
    assert_eq!(buffer.writer_index(), 17);
    assert_eq!(buffer.writable_bytes(), 1);
}

#[test]
fn append_grows_by_the_length_asked_for() {
    let mut buffer = Buffer::with_initial_size(10);
    buffer.append(b"0123456789");
    buffer.retrieve(2);
    buffer.append(b"abc");
    assert_eq!(buffer.as_slice(), b"23456789abc");
    assert_eq!(buffer.reader_index(), 10);
    assert_eq!(buffer.writer_index(), 21);
    assert_eq!(buffer.writable_bytes(), 0);
}

#[test]
fn append_without_making_room_keeps_reader() {
    let mut buffer = Buffer::with_initial_size(10);
    buffer.append(b"0123");
    buffer.retrieve(1);
    buffer.append(b"45");
    assert_eq!(buffer.as_slice(), b"12345");
    assert_eq!(buffer.reader_index(), 9);
    assert_eq!(buffer.writable_bytes(), 4);
}

#[test]
fn has_room_for_small_and_huge() {
    let buffer = Buffer::with_initial_size(4);
    assert!(buffer.has_room_for(4));
    assert!(buffer.has_room_for(1 << 20));
    assert!(!buffer.has_room_for(usize::MAX));
    assert!(!buffer.has_room_for(isize::MAX as usize));
}

#[test]
fn writable_slice_then_has_written() {
    let mut buffer = Buffer::with_initial_size(8);
    buffer.append(b"ab");
    {
        let tail = buffer.writable_slice();
        assert_eq!(tail.len(), 6);
        tail[0] = b'c';
        tail[1] = b'd';
    }
    assert_eq!(buffer.as_slice(), b"ab");
    buffer.has_written(2);
    assert_eq!(buffer.as_slice(), b"abcd");
    assert_eq!(buffer.writable_bytes(), 4);
}

#[test]
fn socket_read_that_leaves_room_needs_no_extra_read() {
    let mut buffer = Buffer::with_initial_size(8);
    buffer.writable_slice()[..3].copy_from_slice(b"xyz");
    let extra_due = buffer.read_tcp_stream(3);
    assert!(!extra_due);
    assert_eq!(buffer.as_slice(), b"xyz");
}

#[test]
fn socket_read_that_fills_tail_asks_for_extra_read() {
    let mut buffer = Buffer::with_initial_size(4);
    buffer.writable_slice().copy_from_slice(b"wxyz");
    let extra_due = buffer.read_tcp_stream(4);
    assert!(extra_due);
    let mut scratch = vec![0u8; EXTRA_READ_SIZE];
    scratch[..100].copy_from_slice(&[7u8; 100]);
    let total = buffer.read_tcp_stream_finish(4, &scratch, IoOutcome::Done(100));
    assert_eq!(total, IoOutcome::Done(104));
    assert_eq!(buffer.readable_bytes(), 104);
    assert_eq!(&buffer.as_slice()[..4], b"wxyz");
    assert_eq!(&buffer.as_slice()[4..], &[7u8; 100][..]);
    let none = buffer.read_tcp_stream_finish(0, &scratch, IoOutcome::Done(0));
    assert_eq!(none, IoOutcome::Done(0));
    assert_eq!(buffer.readable_bytes(), 104);
    assert_eq!(EXTRA_READ_SIZE, 65536);
}

#[test]
fn extra_read_that_would_block_reports_the_first_read() {
    let mut buffer = Buffer::new();
    let message = vec![9u8; 1024];
    assert_eq!(buffer.writable_bytes(), 1024);
    buffer.writable_slice().copy_from_slice(&message);
    assert!(buffer.read_tcp_stream(1024));
    let scratch = vec![0u8; EXTRA_READ_SIZE];
    let result = buffer.read_tcp_stream_finish(1024, &scratch, IoOutcome::WouldBlock);
    assert_eq!(result, IoOutcome::Done(1024));
    assert_eq!(buffer.as_slice(), &message[..]);
    assert_eq!(buffer.writable_bytes(), 0);
}

#[test]
fn extra_read_after_an_empty_first_read() {
    let mut buffer = Buffer::with_initial_size(4);
    buffer.append(b"full");
    assert!(buffer.read_tcp_stream(0));
    let scratch = vec![0u8; 16];
    assert_eq!(
        buffer.read_tcp_stream_finish(0, &scratch, IoOutcome::WouldBlock),
        IoOutcome::WouldBlock
    );
    assert_eq!(buffer.read_tcp_stream_finish(0, &scratch, IoOutcome::Failed), IoOutcome::Failed);
    assert_eq!(buffer.read_tcp_stream_finish(4, &scratch, IoOutcome::Failed), IoOutcome::Failed);
    assert_eq!(buffer.as_slice(), b"full");
    assert_eq!(buffer.read_tcp_stream_finish(0, &scratch, IoOutcome::Done(0)), IoOutcome::Done(0));
    assert_eq!(buffer.as_slice(), b"full");
}

#[test]
fn socket_read_of_nothing_into_full_tail_asks_for_extra_read() {
    let mut buffer = Buffer::with_initial_size(0);
    assert!(buffer.read_tcp_stream(0));
    let mut roomy = Buffer::with_initial_size(1);
    assert!(!roomy.read_tcp_stream(0));
}

#[test]
fn find_bytes_finds_first_of_several() {
    let mut buffer = Buffer::new();
    buffer.append(b"abcabcabc");
    assert_eq!(buffer.find_bytes(b"bc"), Some(1));
    assert_eq!(buffer.find_bytes(b"abcabcabc"), Some(0));
    assert_eq!(buffer.find_bytes(b"abcabcabcd"), None);
    assert_eq!(buffer.find_bytes(b""), None);
    assert_eq!(buffer.find_bytes(b"c"), Some(2));
    buffer.retrieve(3);
    assert_eq!(buffer.find_bytes(b"c"), Some(2));
    assert_eq!(buffer.find_bytes(b"ca"), Some(2));
}

#[test]
fn find_crlf_and_lf() {
    let mut buffer = Buffer::new();
    buffer.append(b"a\nb\r\nc");
    assert_eq!(buffer.find_lf(), Some(1));
    assert_eq!(buffer.find_crlf(), Some(3));
    buffer.retrieve_all();
    assert_eq!(buffer.find_lf(), None);
    assert_eq!(buffer.find_crlf(), None);
}

#[test]
fn read_until_without_delimiter_changes_nothing() {
    let mut buffer = Buffer::new();
    buffer.append(b"no delimiter here");
    assert!(buffer.read_until(b";").is_none());
    assert!(buffer.read_until(b"").is_none());
    assert_eq!(buffer.as_slice(), b"no delimiter here");
    assert_eq!(buffer.read_until(b"no").unwrap(), b"");
    assert_eq!(buffer.as_slice(), b" delimiter here");
}

#[test]
fn read_line_keeps_lone_carriage_return_inside() {
    let mut buffer = Buffer::new();
    buffer.append(b"a\rb\n\n\r\nrest");
    assert_eq!(buffer.read_line().unwrap(), "a\rb");
    assert_eq!(buffer.read_line().unwrap(), "");
    assert_eq!(buffer.read_line().unwrap(), "");
    assert!(buffer.read_line().is_none());
    assert_eq!(buffer.as_slice(), b"rest");
}

#[test]
fn invalid_utf8_is_replaced() {
    let mut buffer = Buffer::new();
    buffer.append(&[b'a', 0xff, b'b']);
    assert_eq!(buffer.retrieve_as_string(3).unwrap(), "a\u{fffd}b");
    buffer.append(&[0xc3, b'\n']);
    assert_eq!(buffer.read_line().unwrap(), "\u{fffd}");
    assert_eq!(buffer.retrieve_all_as_string(), "");
}

#[test]
fn making_room_keeps_the_readable_bytes() {
    let mut buffer = Buffer::with_initial_size(10);
    buffer.append(b"0123456789");
    buffer.retrieve(6);
    buffer.make_space(5);
    assert_eq!(buffer.as_slice(), b"6789");
    assert_eq!(buffer.reader_index(), PREPEND_SIZE);
    assert_eq!(buffer.readable_bytes(), 4);
    assert!(buffer.writable_bytes() >= 5);
    buffer.make_space(100);
    assert_eq!(buffer.as_slice(), b"6789");
    assert_eq!(buffer.reader_index(), PREPEND_SIZE);
    assert_eq!(buffer.writable_bytes(), 106);
    buffer.ensure_writable_bytes(50);
    assert_eq!(buffer.writable_bytes(), 106);
    buffer.ensure_writable_bytes(200);
    assert_eq!(buffer.as_slice(), b"6789");
    assert_eq!(buffer.writable_bytes(), 306);
}
