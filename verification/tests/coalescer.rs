use ssh_engine::coalescer::{InputCoalescer, FLUSH_INTERVAL_MS, FLUSH_THRESHOLD};

#[test]
fn constants_of_the_flush_policy() {
    assert_eq!(FLUSH_INTERVAL_MS, 100);
    assert_eq!(FLUSH_THRESHOLD, 1024);
}

#[test]
fn fast_keystrokes_become_one_write() {
    let keys: Vec<&[u8]> = vec![b"l", b"s", b" ", b"-", b"l", b"a", b"\n"];
    let mut coalescer = InputCoalescer::new(1_000);
    let mut writes: Vec<Vec<u8>> = Vec::new();
    let mut now = 1_000;
    for key in &keys {
        coalescer.push(key);
        now += 10;
        if let Some(batch) = coalescer.poll(now) {
            writes.push(batch);
        }
    }
    assert!(writes.is_empty());
    if let Some(batch) = coalescer.poll(1_100) {
        writes.push(batch);
    }
    if let Some(batch) = coalescer.finish() {
        writes.push(batch);
    }
    assert!(writes.len() < keys.len());
    assert_eq!(writes, vec![b"ls -la\n".to_vec()]);
    assert_eq!(writes.concat(), keys.concat());
}

#[test]
fn writes_put_end_to_end_are_the_input_in_order() {
    let mut coalescer = InputCoalescer::new(0);
    let mut sent: Vec<u8> = Vec::new();
    let mut written: Vec<u8> = Vec::new();
    let mut count = 0;
    for i in 0..500u64 {
        let fragment = vec![(i % 251) as u8; (i % 7) as usize];
        sent.extend_from_slice(&fragment);
        coalescer.push(&fragment);
        if let Some(batch) = coalescer.poll(i * 13) {
            assert!(!batch.is_empty());
            written.extend_from_slice(&batch);
            count += 1;
        }
    }
    if let Some(batch) = coalescer.finish() {
        written.extend_from_slice(&batch);
        count += 1;
    }
    assert_eq!(written, sent);
    assert!(count < 500);
    assert_eq!(coalescer.pending(), 0);
}

#[test]
fn nothing_is_flushed_before_the_interval_has_passed() {
    let mut coalescer = InputCoalescer::new(500);
    coalescer.push(b"a");
    assert_eq!(coalescer.poll(500), None);
    assert_eq!(coalescer.poll(599), None);
    assert_eq!(coalescer.pending(), 1);
    assert_eq!(coalescer.poll(600), Some(b"a".to_vec()));
    assert_eq!(coalescer.pending(), 0);
}

#[test]
fn an_empty_buffer_is_never_flushed() {
    let mut coalescer = InputCoalescer::new(0);
    assert_eq!(coalescer.poll(10_000), None);
    coalescer.push(b"");
    assert_eq!(coalescer.poll(20_000), None);
    assert_eq!(coalescer.finish(), None);
}

#[test]
fn a_flush_starts_a_new_interval() {
    let mut coalescer = InputCoalescer::new(0);
    coalescer.push(b"a");
    assert_eq!(coalescer.poll(150), Some(b"a".to_vec()));
    coalescer.push(b"b");
    assert_eq!(coalescer.poll(200), None);
    assert_eq!(coalescer.poll(249), None);
    assert_eq!(coalescer.poll(250), Some(b"b".to_vec()));
}

#[test]
fn a_look_without_flush_does_not_move_the_interval() {
    let mut coalescer = InputCoalescer::new(0);
    assert_eq!(coalescer.poll(90), None);
    coalescer.push(b"a");
    assert_eq!(coalescer.poll(100), Some(b"a".to_vec()));
}

#[test]
fn a_buffer_past_the_threshold_is_flushed_at_once() {
    let mut coalescer = InputCoalescer::new(0);
    coalescer.push(&vec![7u8; 1024]);
    assert_eq!(coalescer.poll(1), None);
    coalescer.push(b"x");
    let batch = coalescer.poll(2).unwrap();
    assert_eq!(batch.len(), 1025);
    assert_eq!(batch[1024], b'x');
    assert_eq!(coalescer.pending(), 0);
}

#[test]
fn a_clock_that_runs_backwards_flushes_nothing() {
    let mut coalescer = InputCoalescer::new(1_000);
    coalescer.push(b"a");
    assert_eq!(coalescer.poll(0), None);
    assert_eq!(coalescer.poll(1_100), Some(b"a".to_vec()));
}

#[test]
fn the_remainder_is_flushed_once_on_shutdown() {
    let mut coalescer = InputCoalescer::new(0);
    coalescer.push(b"exit");
    assert_eq!(coalescer.finish(), Some(b"exit".to_vec()));
    assert_eq!(coalescer.finish(), None);
    assert_eq!(coalescer.pending(), 0);
}

#[test]
fn large_keystrokes_one_by_one_are_not_fewer_writes() {
    // The size threshold gives each fragment larger than it its own batch.
    let mut coalescer = InputCoalescer::new(0);
    let mut writes = 0;
    for _ in 0..3 {
        coalescer.push(&vec![1u8; 2000]);
        if coalescer.poll(1).is_some() {
            writes += 1;
        }
    }
    assert_eq!(writes, 3);
    assert_eq!(coalescer.finish(), None);
}
