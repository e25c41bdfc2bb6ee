use glass::driver::{Mu1603Error, UsbError};
use glass::frame::{BulkRead, FrameReader, CHUNK, FRAME_ENDPOINT, FRAME_TIMEOUT_MS};
use glass::state::{AnalogGain, ExposureTime, Mu1603BitDepth, Mu1603Mode, Mu1603State};

fn streaming(mode: Mu1603Mode, bitdepth: Mu1603BitDepth) -> Mu1603State {
    Mu1603State {
        id: 0,
        mode,
        exposure: ExposureTime::default(),
        analog_gain: AnalogGain::default(),
        bitdepth,
    }
}

#[test]
fn chunk_is_one_mebibyte_on_the_frame_endpoint() {
    assert_eq!(CHUNK, 1_048_576);
    assert_eq!(FRAME_ENDPOINT, 0x81);
    assert_eq!(FRAME_TIMEOUT_MS, 500);
    let reader = FrameReader::new(&streaming(Mu1603Mode::Mode1, Mu1603BitDepth::Depth8));
    assert_eq!(
        reader.next_read(),
        Some(BulkRead { endpoint: 0x81, len: 1_048_576, timeout_ms: 500 })
    );
}

#[test]
fn frame_length_is_width_by_height_by_bytes_per_pixel() {
    let lens = [
        (Mu1603Mode::Mode0, Mu1603BitDepth::Depth8, 16_156_416usize),
        (Mu1603Mode::Mode1, Mu1603BitDepth::Depth8, 4_036_800),
        (Mu1603Mode::Mode2, Mu1603BitDepth::Depth8, 1_781_760),
        (Mu1603Mode::Mode0, Mu1603BitDepth::Depth12, 32_312_832),
        (Mu1603Mode::Mode1, Mu1603BitDepth::Depth12, 8_073_600),
        (Mu1603Mode::Mode2, Mu1603BitDepth::Depth12, 3_563_520),
    ];
    for (mode, depth, len) in lens {
        assert_eq!(FrameReader::new(&streaming(mode, depth)).frame_len(), len);
    }
}

#[test]
fn mode1_frame_takes_three_full_chunks_and_a_partial_one() {
    let mut reader = FrameReader::new(&streaming(Mu1603Mode::Mode1, Mu1603BitDepth::Depth8));
    let frame_len = reader.frame_len();
    assert_eq!(frame_len, 2320 * 1740);
    let source: Vec<u8> = (0..frame_len).map(|i| (i % 251) as u8).collect();

    let mut reads = 0;
    let mut sizes = Vec::new();
    let mut offset = 0;
    while let Some(read) = reader.next_read() {
        let end = usize::min(offset + read.len, frame_len);
        reader.push_chunk(&source[offset..end]);
        sizes.push(end - offset);
        offset = end;
        reads += 1;
    }
    assert_eq!(reads, 4);
    assert_eq!(sizes, vec![1_048_576, 1_048_576, 1_048_576, frame_len - 3 * 1_048_576]);
    assert_eq!(sizes[3], 891_072);
    assert_eq!(reader.received(), frame_len);
    assert_eq!(reader.finish(), Ok(source));
}

#[test]
fn reader_goes_on_after_each_full_chunk() {
    let mut reader = FrameReader::new(&streaming(Mu1603Mode::Mode1, Mu1603BitDepth::Depth8));
    let full = vec![0xabu8; CHUNK];
    for n in 1..=3 {
        reader.push_chunk(&full);
        assert_eq!(reader.received(), n * CHUNK);
        assert!(reader.next_read().is_some());
    }
    reader.push_chunk(&full[..891_072]);
    assert!(reader.next_read().is_none());
    assert_eq!(reader.received(), 4_036_800);
}

#[test]
fn truncated_first_frame_is_an_error() {
    let mut reader = FrameReader::new(&streaming(Mu1603Mode::Mode1, Mu1603BitDepth::Depth8));
    reader.push_chunk(&vec![1u8; CHUNK]);
    // A short chunk ends the frame before it is whole.
    reader.push_chunk(&vec![2u8; 4096]);
    assert!(reader.next_read().is_none());
    assert_eq!(reader.received(), CHUNK + 4096);
    assert_eq!(reader.finish(), Err(Mu1603Error::FirstFrame));
}

#[test]
fn empty_chunk_ends_the_frame() {
    let mut reader = FrameReader::new(&streaming(Mu1603Mode::Mode2, Mu1603BitDepth::Depth8));
    reader.push_chunk(&[]);
    assert!(reader.next_read().is_none());
    assert_eq!(reader.finish(), Err(Mu1603Error::FirstFrame));
}

#[test]
fn bytes_beyond_the_frame_are_cut_off() {
    let mut reader = FrameReader::new(&streaming(Mu1603Mode::Mode2, Mu1603BitDepth::Depth8));
    let frame_len = reader.frame_len();
    assert_eq!(frame_len, 1_781_760);
    let first = vec![1u8; CHUNK];
    let second = vec![2u8; CHUNK];
    reader.push_chunk(&first);
    assert!(reader.next_read().is_some());
    // The second chunk is full, but only 733184 bytes of it belong to the frame.
    reader.push_chunk(&second);
    assert_eq!(reader.received(), frame_len);
    // The frame is whole: no further read, although the chunk was not short.
    assert!(reader.next_read().is_none());
    let data = reader.finish().unwrap();
    assert_eq!(data.len(), frame_len);
    assert!(data[..CHUNK].iter().all(|b| *b == 1));
    assert!(data[CHUNK..].iter().all(|b| *b == 2));
}

#[test]
fn finished_reader_ignores_further_chunks() {
    let mut reader = FrameReader::new(&streaming(Mu1603Mode::Mode2, Mu1603BitDepth::Depth8));
    reader.push_chunk(&[5u8; 100]);
    assert!(reader.next_read().is_none());
    reader.push_chunk(&vec![6u8; CHUNK]);
    assert_eq!(reader.received(), 100);
    assert_eq!(reader.finish(), Err(Mu1603Error::FirstFrame));
}

#[test]
fn failed_read_ends_the_frame_with_the_transport_error() {
    let mut reader = FrameReader::new(&streaming(Mu1603Mode::Mode1, Mu1603BitDepth::Depth8));
    reader.push_chunk(&vec![1u8; CHUNK]);
    assert_eq!(reader.fail(UsbError::Timeout), Mu1603Error::Rusb(UsbError::Timeout));
    let reader = FrameReader::new(&streaming(Mu1603Mode::Mode2, Mu1603BitDepth::Depth8));
    assert_eq!(reader.fail(UsbError::NoDevice), Mu1603Error::Rusb(UsbError::NoDevice));
}
