use glass::pixel::{BayerPattern, PixelFormat};
use glass::shared::{Publish, SharedFrameBuffer};

const RAW: PixelFormat = PixelFormat::Bayer8(BayerPattern::BGGR);

#[test]
fn new_shared_buffer_holds_a_zero_frame() {
    let shared = SharedFrameBuffer::new(RAW, 4, 2);
    assert_eq!(shared.frame_id(), 0);
    assert_eq!(shared.size_bytes(), 8);
    assert_eq!(shared.read_if_newer(0), None);
    assert_eq!(shared.read_if_newer(1), Some((vec![0u8; 8], 0)));
}

#[test]
fn publish_copies_the_frame_and_raises_the_id() {
    let mut shared = SharedFrameBuffer::new(RAW, 4, 2);
    let frame = [1u8, 2, 3, 4, 5, 6, 7, 8];
    assert_eq!(shared.publish(&frame), Publish::Published(1));
    assert_eq!(shared.frame_id(), 1);
    assert_eq!(shared.read_if_newer(0), Some((frame.to_vec(), 1)));
    assert_eq!(shared.publish(&[9u8; 8]), Publish::Published(2));
    assert_eq!(shared.read_if_newer(1), Some((vec![9u8; 8], 2)));
}

#[test]
fn publish_rejects_a_frame_of_another_size() {
    let mut shared = SharedFrameBuffer::new(RAW, 4, 2);
    assert_eq!(shared.publish(&[3u8; 8]), Publish::Published(1));
    assert_eq!(shared.publish(&[4u8; 7]), Publish::Rejected);
    assert_eq!(shared.publish(&[4u8; 9]), Publish::Rejected);
    assert_eq!(shared.publish(&[]), Publish::Rejected);
    // Neither the bytes nor the id moved.
    assert_eq!(shared.frame_id(), 1);
    assert_eq!(shared.read_if_newer(0), Some((vec![3u8; 8], 1)));
}

#[test]
fn try_publish_drops_the_frame_when_the_buffer_is_busy() {
    assert_eq!(SharedFrameBuffer::try_publish(None, &[1u8; 8]), Publish::Busy);
}

#[test]
fn try_publish_publishes_when_the_buffer_is_free() {
    let mut shared = SharedFrameBuffer::new(RAW, 4, 2);
    assert_eq!(
        SharedFrameBuffer::try_publish(Some(&mut shared), &[1u8; 8]),
        Publish::Published(1)
    );
    assert_eq!(
        SharedFrameBuffer::try_publish(Some(&mut shared), &[1u8; 3]),
        Publish::Rejected
    );
    assert_eq!(shared.frame_id(), 1);
}

#[test]
fn try_publish_works_through_a_lock() {
    let lock = std::sync::RwLock::new(SharedFrameBuffer::new(RAW, 2, 2));
    {
        let reader = lock.read().unwrap();
        // The reader holds the lock: the frame is dropped.
        let slot = lock.try_write().ok();
        let mut slot = slot;
        assert_eq!(
            SharedFrameBuffer::try_publish(slot.as_deref_mut(), &[1, 2, 3, 4]),
            Publish::Busy
        );
        assert_eq!(reader.frame_id(), 0);
    }
    let mut slot = lock.try_write().ok();
    assert_eq!(
        SharedFrameBuffer::try_publish(slot.as_deref_mut(), &[1, 2, 3, 4]),
        Publish::Published(1)
    );
}

#[test]
fn read_if_newer_is_unchanged_for_the_id_seen_last() {
    let mut shared = SharedFrameBuffer::new(RAW, 2, 1);
    let mut last_seen = 0;
    assert_eq!(shared.read_if_newer(last_seen), None);
    shared.publish(&[10, 20]);
    let (bytes, id) = shared.read_if_newer(last_seen).unwrap();
    assert_eq!(bytes, vec![10, 20]);
    assert_eq!(id, 1);
    last_seen = id;
    assert_eq!(shared.read_if_newer(last_seen), None);
    // A consumer that missed frames sees the latest one only.
    shared.publish(&[11, 21]);
    shared.publish(&[12, 22]);
    assert_eq!(shared.read_if_newer(last_seen), Some((vec![12, 22], 3)));
}

#[test]
fn consumer_always_reads_a_whole_frame() {
    let mut shared = SharedFrameBuffer::new(PixelFormat::RGB8, 3, 3);
    let declared = shared.size_bytes();
    assert_eq!(declared, 27);
    let offers: [usize; 8] = [27, 0, 26, 27, 28, 1, 27, 54];
    let mut seen = usize::MAX;
    let mut published = 0;
    for (n, len) in offers.iter().enumerate() {
        let frame = vec![n as u8; *len];
        let before = shared.frame_id();
        let outcome = shared.publish(&frame);
        if *len == declared {
            published += 1;
            assert_eq!(outcome, Publish::Published(before + 1));
        } else {
            assert_eq!(outcome, Publish::Rejected);
            assert_eq!(shared.frame_id(), before);
        }
        if let Some((bytes, id)) = shared.read_if_newer(seen) {
            assert_eq!(bytes.len(), declared);
            assert_eq!(id, published);
            // All bytes are those of one frame.
            assert!(bytes.iter().all(|b| *b == bytes[0]));
            seen = id;
        }
    }
    assert_eq!(shared.frame_id(), 3);
}
