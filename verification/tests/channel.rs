use wsf::channel::{InputBuffer, MAX_INPUT_SIZE};

fn pattern(len: usize) -> Vec<u8> {
    (0..len).map(|i| (i % 251) as u8).collect()
}

#[test]
fn new_buffer_is_zeroed_and_empty() {
    let buffer = InputBuffer::new(16);
    assert_eq!(buffer.capacity(), 16);
    assert_eq!(buffer.len(), 0);
    assert!(buffer.is_empty());
    assert_eq!(buffer.region(), &[0u8; 16][..]);
    assert_eq!(buffer.payload(), Vec::<u8>::new());
}

#[test]
fn default_capacity_is_1024() {
    assert_eq!(MAX_INPUT_SIZE, 1024);
    assert_eq!(InputBuffer::new(MAX_INPUT_SIZE).capacity(), 1024);
}

#[test]
fn deliver_empty_input_stores_length_zero() {
    let mut buffer = InputBuffer::new(8);
    buffer.deliver(b"abc");
    buffer.deliver(b"");
    assert_eq!(buffer.len(), 0);
    assert!(buffer.is_empty());
    assert_eq!(buffer.payload(), Vec::<u8>::new());
    // the region keeps what the earlier input left there
    assert_eq!(buffer.region(), &[b'a', b'b', b'c', 0, 0, 0, 0, 0][..]);
}

#[test]
fn deliver_short_input_is_kept_whole() {
    let mut buffer = InputBuffer::new(8);
    buffer.deliver(b"hello");
    assert_eq!(buffer.len(), 5);
    assert!(!buffer.is_empty());
    assert_eq!(buffer.payload(), b"hello".to_vec());
    assert_eq!(buffer.region(), &[b'h', b'e', b'l', b'l', b'o', 0, 0, 0][..]);
    assert_eq!(buffer.capacity(), 8);
}

#[test]
fn deliver_input_of_exactly_the_capacity() {
    let mut buffer = InputBuffer::new(4);
    buffer.deliver(&[9, 8, 7, 6]);
    assert_eq!(buffer.len(), 4);
    assert_eq!(buffer.payload(), vec![9, 8, 7, 6]);
}

#[test]
fn deliver_one_byte_over_the_capacity_is_cut() {
    let mut buffer = InputBuffer::new(4);
    buffer.deliver(&[1, 2, 3, 4, 5]);
    assert_eq!(buffer.len(), 4);
    assert_eq!(buffer.payload(), vec![1, 2, 3, 4]);
    assert_eq!(buffer.region(), &[1u8, 2, 3, 4][..]);
}

#[test]
fn deliver_2048_bytes_into_1024_keeps_the_first_1024() {
    let input = pattern(2048);
    let mut buffer = InputBuffer::new(1024);
    buffer.deliver(&input);
    assert_eq!(buffer.len(), 1024);
    assert_eq!(buffer.payload(), input[..1024].to_vec());
    assert_eq!(buffer.region(), &input[..1024]);
    assert_eq!(buffer.capacity(), 1024);
}

#[test]
fn deliver_twice_is_the_same_as_once() {
    let input = pattern(40);
    let mut once = InputBuffer::new(32);
    once.deliver(b"an earlier input that fills the region!");
    let mut twice = InputBuffer::new(32);
    twice.deliver(b"an earlier input that fills the region!");
    once.deliver(&input);
    twice.deliver(&input);
    twice.deliver(&input);
    assert_eq!(once.len(), twice.len());
    assert_eq!(once.region(), twice.region());
    assert_eq!(once.payload(), twice.payload());
}

#[test]
fn deliver_leaves_the_bytes_past_the_length() {
    let mut buffer = InputBuffer::new(6);
    buffer.deliver(&[1, 2, 3, 4, 5, 6]);
    buffer.deliver(&[7, 8]);
    assert_eq!(buffer.len(), 2);
    assert_eq!(buffer.payload(), vec![7, 8]);
    assert_eq!(buffer.region(), &[7u8, 8, 3, 4, 5, 6][..]);
}

#[test]
fn deliver_into_a_region_without_room() {
    let mut buffer = InputBuffer::new(0);
    buffer.deliver(&[1, 2, 3]);
    assert_eq!(buffer.len(), 0);
    assert_eq!(buffer.capacity(), 0);
    assert_eq!(buffer.payload(), Vec::<u8>::new());
}

#[test]
fn payload_is_a_copy_of_the_first_len_bytes() {
    let mut buffer = InputBuffer::new(10);
    buffer.deliver(&[5, 4, 3]);
    let payload = buffer.payload();
    assert_eq!(payload, buffer.region()[..buffer.len()].to_vec());
}

#[test]
fn clear_zeroes_the_region_and_the_length() {
    let mut buffer = InputBuffer::new(5);
    buffer.deliver(&[1, 2, 3]);
    buffer.clear();
    assert_eq!(buffer.len(), 0);
    assert!(buffer.is_empty());
    assert_eq!(buffer.capacity(), 5);
    assert_eq!(buffer.region(), &[0u8; 5][..]);
    buffer.deliver(&[9]);
    assert_eq!(buffer.region(), &[9u8, 0, 0, 0, 0][..]);
}
