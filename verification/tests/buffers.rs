use rspeed::buffer_pool::{BufferStack, DEFAULT_BUF_SIZE, DEFAULT_CAPACITY};

#[test]
fn stack_hands_out_capacity_buffers() {
    let mut s = BufferStack::new(DEFAULT_CAPACITY, DEFAULT_BUF_SIZE);
    assert_eq!(s.available(), DEFAULT_CAPACITY);
    let taken: Vec<_> = (0..DEFAULT_CAPACITY).map(|_| s.take()).collect();
    assert!(taken.iter().all(|b| b.is_some()));
    assert!(s.take().is_none());
    assert_eq!(s.available(), 0);
}

#[test]
fn stack_buffers_start_empty_with_room() {
    let mut s = BufferStack::new(1, DEFAULT_BUF_SIZE);
    let b = s.take().unwrap();
    assert_eq!(b.len(), 0);
    assert!(b.capacity() >= DEFAULT_BUF_SIZE);
    assert_eq!(s.buf_size(), DEFAULT_BUF_SIZE);
}

#[test]
fn given_back_buffer_is_cleared() {
    let mut s = BufferStack::new(1, 4096);
    let mut b = s.take().unwrap();
    b.extend_from_slice(b"hello");
    s.give_back(b);
    assert_eq!(s.available(), 1);
    let b = s.take().unwrap();
    assert_eq!(b.len(), 0);
    assert!(b.capacity() >= 4096);
}

#[test]
fn available_tracks_take_and_give_back() {
    let mut s = BufferStack::new(4, 4096);
    let a = s.take().unwrap();
    let b = s.take().unwrap();
    assert_eq!(s.available(), 2);
    s.give_back(a);
    assert_eq!(s.available(), 3);
    s.give_back(b);
    assert_eq!(s.available(), 4);
}

#[test]
fn given_back_buffer_keeps_its_room() {
    let mut s = BufferStack::new(2, DEFAULT_BUF_SIZE);
    let mut b = s.take().unwrap();
    b.extend_from_slice(&[0u8; 1024]);
    assert_eq!(b.len(), 1024);
    s.give_back(b);
    let b = s.take().unwrap();
    assert_eq!(b.len(), 0);
    assert!(b.capacity() >= DEFAULT_BUF_SIZE);
    let other = s.take().unwrap();
    assert!(other.capacity() >= DEFAULT_BUF_SIZE);
}
