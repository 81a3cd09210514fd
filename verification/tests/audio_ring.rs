use audiopass::audio::{fill_silence, AudioRing, OutputPlan};
use audiopass::constants::AUDIOPASS_MIC_RING_CAPACITY_IN_SAMPLES;

fn le_bytes(words: &[u32]) -> Vec<u8> {
    let mut bytes = Vec::new();
    for w in words {
        bytes.extend_from_slice(&w.to_le_bytes());
    }
    bytes
}

fn out_buffer() -> Vec<u32> {
    vec![0u32; AUDIOPASS_MIC_RING_CAPACITY_IN_SAMPLES]
}

#[test]
fn captured_samples_come_out_in_order() {
    let mut ring = AudioRing::new();
    let words = [1u32, 2, 3, 4, 0xdead_beef, 6];
    let bytes = le_bytes(&words);
    let pushed = ring.capture_chunk(&bytes, 0, bytes.len() as u32);
    assert_eq!(pushed, 6);
    let mut out = out_buffer();
    let plan = ring.pop_output(0, 64, &mut out);
    assert_eq!(plan, OutputPlan { popped_sample_count: 6, output_size_in_bytes: 64 });
    assert_eq!(&out[..6], &words);
}

#[test]
fn capture_keeps_whole_frames_only() {
    let mut ring = AudioRing::new();
    // 12 bytes: one whole frame (8 bytes) and half of the next.
    let bytes = le_bytes(&[10u32, 11, 12]);
    let pushed = ring.capture_chunk(&bytes, 0, 12);
    assert_eq!(pushed, 2);
    let mut out = out_buffer();
    let plan = ring.pop_output(0, 800, &mut out);
    assert_eq!(plan.popped_sample_count, 2);
    assert_eq!(&out[..2], &[10, 11]);
}

#[test]
fn capture_window_wraps_offset_and_cuts_at_end() {
    let mut ring = AudioRing::new();
    let bytes = le_bytes(&[1u32, 2, 3, 4]);
    // Offset 24 wraps to 8 in a 16-byte buffer; a size of 100 is cut at the end.
    let pushed = ring.capture_chunk(&bytes, 24, 100);
    assert_eq!(pushed, 2);
    let mut out = out_buffer();
    ring.pop_output(0, 800, &mut out);
    assert_eq!(&out[..2], &[3, 4]);
}

#[test]
fn capture_of_empty_or_zero_chunk_adds_nothing() {
    let mut ring = AudioRing::new();
    assert_eq!(ring.capture_chunk(&[], 0, 100), 0);
    let bytes = le_bytes(&[1u32, 2]);
    assert_eq!(ring.capture_chunk(&bytes, 0, 0), 0);
    let mut out = out_buffer();
    assert_eq!(ring.pop_output(0, 80, &mut out).popped_sample_count, 0);
}

#[test]
fn overflowing_capture_marks_ring_stale_and_mic_clears_it() {
    let mut ring = AudioRing::new();
    let samples: Vec<u32> = (0..(AUDIOPASS_MIC_RING_CAPACITY_IN_SAMPLES as u32 + 4)).collect();
    let bytes = le_bytes(&samples);
    let pushed = ring.capture_chunk(&bytes, 0, bytes.len() as u32);
    assert_eq!(pushed, AUDIOPASS_MIC_RING_CAPACITY_IN_SAMPLES);
    // The ring is full: nothing more fits.
    assert_eq!(ring.capture_chunk(&le_bytes(&[7, 8]), 0, 8), 0);
    assert!(ring.take_clear_request());
    assert!(!ring.take_clear_request());
    let mut out = out_buffer();
    assert_eq!(ring.pop_output(0, 80, &mut out).popped_sample_count, 0);
}

#[test]
fn request_clear_drops_samples_at_next_cycle() {
    let mut ring = AudioRing::new();
    ring.capture_chunk(&le_bytes(&[1, 2]), 0, 8);
    ring.request_clear();
    assert!(ring.take_clear_request());
    let mut out = out_buffer();
    assert_eq!(ring.pop_output(0, 80, &mut out).popped_sample_count, 0);
}

#[test]
fn output_honours_requested_frames_and_buffer_size() {
    let mut ring = AudioRing::new();
    let words: Vec<u32> = (100..120).collect();
    ring.capture_chunk(&le_bytes(&words), 0, 80);
    let mut out = out_buffer();
    // Two frames asked for, a buffer of five frames: two frames are written.
    let plan = ring.pop_output(2, 40, &mut out);
    assert_eq!(plan, OutputPlan { popped_sample_count: 4, output_size_in_bytes: 16 });
    assert_eq!(&out[..4], &[100, 101, 102, 103]);
    // Ten frames asked for, a buffer of three frames (and a stray byte): three frames.
    let plan = ring.pop_output(10, 25, &mut out);
    assert_eq!(plan, OutputPlan { popped_sample_count: 6, output_size_in_bytes: 24 });
    assert_eq!(&out[..6], &[104, 105, 106, 107, 108, 109]);
    // More frames than the ring holds: the rest is silence.
    let plan = ring.pop_output(0, 800, &mut out);
    assert_eq!(plan, OutputPlan { popped_sample_count: 10, output_size_in_bytes: 800 });
}

#[test]
fn silence_fills_only_the_range() {
    let mut bytes = vec![9u8; 10];
    fill_silence(&mut bytes, 2, 6);
    assert_eq!(bytes, vec![9, 9, 0, 0, 0, 0, 9, 9, 9, 9]);
}
