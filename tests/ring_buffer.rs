use shoosh::ring_buffer::RingBuffer;

fn collect_buffer<T: Copy>(buffer: &RingBuffer<T>) -> Vec<T> {
    buffer.iter()
}

#[test]
fn append_elements() {
    let mut buffer = RingBuffer::new(5);

    // partial insert
    buffer.append(&[1, 2]);
    assert_eq!(&[1, 2], collect_buffer(&buffer).as_slice());

    // wrap ring before full
    buffer.append(&[3, 4, 5, 6]);
    assert_eq!(&[2, 3, 4, 5, 6], collect_buffer(&buffer).as_slice());

    // insert elements in the middle
    buffer.append(&[7, 8]);
    assert_eq!(&[4, 5, 6, 7, 8], collect_buffer(&buffer).as_slice());

    // wrap ring while full
    buffer.append(&[9, 10, 11]);
    assert_eq!(&[7, 8, 9, 10, 11], collect_buffer(&buffer).as_slice());

    // insert more elements than ring holds
    buffer.append(&[12, 13, 14, 15, 16, 17, 18, 19, 20]);
    assert_eq!(&[16, 17, 18, 19, 20], collect_buffer(&buffer).as_slice());
}

#[test]
fn new_buffer_is_empty() {
    let buffer: RingBuffer<u32> = RingBuffer::new(3);
    assert!(buffer.iter().is_empty());
}

#[test]
fn append_empty_slice_keeps_contents() {
    let mut buffer = RingBuffer::new(3);
    buffer.append(&[1u8, 2]);
    buffer.append(&[]);
    assert_eq!(buffer.iter(), vec![1, 2]);
}

#[test]
fn zero_capacity_holds_nothing() {
    let mut buffer = RingBuffer::new(0);
    buffer.append(&[1u32, 2, 3]);
    assert!(buffer.iter().is_empty());
}

#[test]
fn exactly_capacity_in_one_call() {
    let mut buffer = RingBuffer::new(4);
    buffer.append(&[9u16]);
    buffer.append(&[1, 2, 3, 4]);
    assert_eq!(buffer.iter(), vec![1, 2, 3, 4]);
}

#[test]
fn never_more_than_capacity_over_many_appends() {
    let mut buffer = RingBuffer::new(7);
    let mut all: Vec<u64> = Vec::new();
    for round in 0..40u64 {
        let values: Vec<u64> = (0..(round % 11)).map(|k| round * 100 + k).collect();
        buffer.append(&values);
        all.extend_from_slice(&values);
        let held = buffer.iter();
        assert!(held.len() <= 7);
        let start = all.len().saturating_sub(7);
        assert_eq!(held, all[start..].to_vec());
    }
}
