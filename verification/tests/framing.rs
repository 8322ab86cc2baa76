use bass_pitch::framing::{CaptureStep, FramingBuffer, FramingError};

fn buffer(capacity: usize) -> FramingBuffer {
    match FramingBuffer::new(capacity) {
        Ok(b) => b,
        Err(e) => panic!("no buffer: {:?}", e),
    }
}

#[test]
fn zero_capacity_is_refused() {
    assert!(matches!(FramingBuffer::new(0), Err(FramingError::ZeroCapacity)));
}

#[test]
fn new_buffer_is_empty() {
    let b = buffer(8192);
    assert_eq!(b.capacity(), 8192);
    assert_eq!(b.len(), 0);
    assert!(!b.is_full());
}

#[test]
fn push_accepts_up_to_capacity() {
    let mut b = buffer(4);
    assert_eq!(b.push(&[1, 2, 3]), 3);
    assert_eq!(b.len(), 3);
    assert!(!b.is_full());
    assert_eq!(b.push(&[4, 5, 6]), 1);
    assert_eq!(b.len(), 4);
    assert!(b.is_full());
    assert_eq!(b.push(&[7]), 0);
    assert_eq!(b.len(), 4);
    assert_eq!(b.drain_to_sequence(), vec![1, 2, 3, 4]);
}

#[test]
fn push_of_nothing_changes_nothing() {
    let mut b = buffer(2);
    assert_eq!(b.push(&[]), 0);
    assert_eq!(b.len(), 0);
    assert_eq!(b.push(&[9]), 1);
    assert_eq!(b.push(&[]), 0);
    assert_eq!(b.drain_to_sequence(), vec![9]);
}

#[test]
fn full_exactly_at_capacity() {
    let mut b = buffer(3);
    b.push(&[1]);
    assert!(!b.is_full());
    b.push(&[2]);
    assert!(!b.is_full());
    b.push(&[3]);
    assert!(b.is_full());
}

#[test]
fn drain_returns_push_order_and_empties() {
    let mut b = buffer(5);
    b.push(&[10, 20]);
    b.push(&[30]);
    b.push(&[40, 50]);
    assert!(b.is_full());
    let window = b.drain_to_sequence();
    assert_eq!(window, vec![10, 20, 30, 40, 50]);
    assert_eq!(window.len(), b.capacity());
    assert_eq!(b.len(), 0);
    assert!(!b.is_full());
    assert_eq!(b.capacity(), 5);
}

#[test]
fn drain_of_empty_is_empty_again() {
    let mut b = buffer(3);
    assert_eq!(b.drain_to_sequence(), Vec::<u32>::new());
    assert_eq!(b.drain_to_sequence(), Vec::<u32>::new());
    b.push(&[1, 2, 3]);
    assert_eq!(b.drain_to_sequence(), vec![1, 2, 3]);
    assert_eq!(b.drain_to_sequence(), Vec::<u32>::new());
    assert_eq!(b.len(), 0);
}

#[test]
fn buffer_is_reusable_after_drain() {
    let mut b = buffer(2);
    b.push(&[1, 2, 3]);
    assert_eq!(b.drain_to_sequence(), vec![1, 2]);
    b.push(&[4]);
    b.push(&[5, 6]);
    assert_eq!(b.drain_to_sequence(), vec![4, 5]);
    b.push(&[7, 8]);
    assert_eq!(b.drain_to_sequence(), vec![7, 8]);
}

#[test]
fn chunking_does_not_change_the_window() {
    let stream: Vec<u32> = (0..20).collect();
    let mut whole = buffer(16);
    whole.push(&stream);
    let mut pieces = buffer(16);
    for chunk in stream.chunks(3) {
        pieces.push(chunk);
    }
    assert_eq!(whole.drain_to_sequence(), pieces.drain_to_sequence());
}

#[test]
fn capture_step_buffers_until_full() {
    let mut b = buffer(4);
    assert!(matches!(b.on_audio_buffer(&[1, 2, 3]), CaptureStep::Buffered(3)));
    assert!(matches!(b.on_audio_buffer(&[4, 5]), CaptureStep::Buffered(1)));
    assert!(b.is_full());
    match b.on_audio_buffer(&[6, 7]) {
        CaptureStep::WindowReady(window) => assert_eq!(window, vec![1, 2, 3, 4]),
        CaptureStep::Buffered(n) => panic!("buffered {} on a full buffer", n),
    }
    assert_eq!(b.len(), 0);
    assert!(matches!(b.on_audio_buffer(&[8]), CaptureStep::Buffered(1)));
    assert_eq!(b.drain_to_sequence(), vec![8]);
}

#[test]
fn full_window_of_observed_size() {
    let mut b = buffer(8192);
    let delivery: Vec<u32> = (0..512).collect();
    let mut steps: usize = 0;
    while !b.is_full() {
        assert!(matches!(b.on_audio_buffer(&delivery), CaptureStep::Buffered(512)));
        steps += 1;
    }
    assert_eq!(steps, 16);
    match b.on_audio_buffer(&delivery) {
        CaptureStep::WindowReady(window) => {
            assert_eq!(window.len(), 8192);
            assert_eq!(window[0], 0);
            assert_eq!(window[511], 511);
            assert_eq!(window[512], 0);
            assert_eq!(window[8191], 511);
        }
        CaptureStep::Buffered(n) => panic!("buffered {} on a full buffer", n),
    }
}
