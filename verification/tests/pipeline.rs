use rfid_scanner::audio::{writer_step, Overflow, RingBuffer, WRITER_YIELD_INTERVAL};
use rfid_scanner::speech::on_samples;

#[test]
fn oversize_frame_overflows_and_leaves_buffer_unchanged() {
    let mut rb = RingBuffer::new(4096);
    let frame = vec![0u8; 5000];
    assert_eq!(rb.write(frame), Err(Overflow));
    // The rejected write left nothing queued.
    assert_eq!(rb.read(), None);
}

#[test]
fn frames_come_out_in_write_order_without_loss() {
    let mut rb = RingBuffer::new(16);
    assert_eq!(rb.write(vec![1, 2, 3]), Ok(()));
    assert_eq!(rb.write(vec![4]), Ok(()));
    assert_eq!(rb.write(vec![5, 6]), Ok(()));
    let a = rb.read().unwrap();
    assert_eq!(a, vec![1, 2, 3]);
    let b = rb.read().unwrap();
    assert_eq!(b, vec![4]);
    rb.release(a);
    rb.release(b);
    let c = rb.read().unwrap();
    assert_eq!(c, vec![5, 6]);
    rb.release(c);
    assert_eq!(rb.read(), None);
}

#[test]
fn overflow_between_writes_does_not_corrupt_queued_frames() {
    let mut rb = RingBuffer::new(4);
    assert_eq!(rb.write(vec![9, 8]), Ok(()));
    assert_eq!(rb.write(vec![1, 2, 3]), Err(Overflow));
    assert_eq!(rb.write(vec![7, 6]), Ok(()));
    assert_eq!(rb.read().unwrap(), vec![9, 8]);
    assert_eq!(rb.read().unwrap(), vec![7, 6]);
    assert_eq!(rb.read(), None);
}

#[test]
fn capacity_frees_only_on_release() {
    let mut rb = RingBuffer::new(4);
    assert_eq!(rb.write(vec![1, 2, 3, 4]), Ok(()));
    let frame = rb.read().unwrap();
    // The frame is out of the queue but its storage is still charged.
    assert_eq!(rb.write(vec![5]), Err(Overflow));
    rb.release(frame);
    assert_eq!(rb.write(vec![5]), Ok(()));
    assert_eq!(rb.read().unwrap(), vec![5]);
}

#[test]
fn synthesis_callback_drops_on_overflow_instead_of_blocking() {
    let mut rb = RingBuffer::new(4);
    assert!(on_samples(&mut rb, vec![1, 2, 3]));
    assert!(!on_samples(&mut rb, vec![4, 5]));
    assert!(on_samples(&mut rb, vec![6]));
    assert_eq!(rb.read().unwrap(), vec![1, 2, 3]);
    assert_eq!(rb.read().unwrap(), vec![6]);
    assert_eq!(rb.read(), None);
}

#[test]
fn writer_flags_short_writes_as_warnings() {
    let step = writer_step(320, 320, 0);
    assert!(!step.short_write);
    assert_eq!(step.frames_done, 1);
    let step = writer_step(320, 64, 1);
    assert!(step.short_write);
    assert_eq!(step.frames_done, 2);
}

#[test]
fn writer_yields_every_interval() {
    let step = writer_step(8, 8, WRITER_YIELD_INTERVAL - 1);
    assert!(step.yield_now);
    assert_eq!(step.frames_done, WRITER_YIELD_INTERVAL);
    let step = writer_step(8, 8, WRITER_YIELD_INTERVAL);
    assert!(!step.yield_now);
    let step = writer_step(8, 8, u64::MAX);
    assert_eq!(step.frames_done, 0);
    assert!(step.yield_now);
}
