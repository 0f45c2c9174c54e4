use xcope::scope::palette::{palette_color, Rgb};
use xcope::scope::render_sampling::{column_range, frame_channel_samples};
use xcope::scope::{ScopeCaptureBuffer, ScopeFrame};

fn f(values: &[f32]) -> Vec<u32> {
    values.iter().map(|v| v.to_bits()).collect()
}

fn value(bits: u32) -> f32 {
    f32::from_bits(bits)
}

#[test]
fn snapshot_returns_recent_frames_in_chronological_order() {
    let mut buffer = ScopeCaptureBuffer::new(8);
    let ch0 = f(&[0.0, 1.0, 2.0, 3.0, 4.0]);
    let ch1 = f(&[10.0, 11.0, 12.0, 13.0, 14.0]);
    buffer.write_block(&[&ch0, &ch1], 5);

    let snapshot = buffer.snapshot_recent(3);
    assert_eq!(snapshot.channel_count, 2);
    assert_eq!(snapshot.sample_count(), 3);
    assert_eq!(value(snapshot.sample(0, 0)), 2.0);
    assert_eq!(value(snapshot.sample(1, 0)), 12.0);
    assert_eq!(value(snapshot.sample(0, 2)), 4.0);
    assert_eq!(value(snapshot.sample(1, 2)), 14.0);
}

#[test]
fn snapshot_caps_to_ring_capacity_after_wrap() {
    let mut buffer = ScopeCaptureBuffer::new(4);
    let ch0 = f(&[0.0, 1.0, 2.0, 3.0, 4.0, 5.0]);
    buffer.write_block(&[&ch0], 6);

    let snapshot = buffer.snapshot_recent(10);
    assert_eq!(snapshot.sample_count(), 4);
    assert_eq!(value(snapshot.sample(0, 0)), 2.0);
    assert_eq!(value(snapshot.sample(0, 3)), 5.0);
}

#[test]
fn snapshot_ending_at_reads_absolute_window() {
    let mut buffer = ScopeCaptureBuffer::new(8);
    let ch0 = f(&[0.0, 1.0, 2.0, 3.0, 4.0, 5.0]);
    buffer.write_block(&[&ch0], 6);

    let snapshot = buffer.snapshot_ending_at(5, 3);
    assert_eq!(snapshot.sample_count(), 3);
    assert_eq!(value(snapshot.sample(0, 0)), 2.0);
    assert_eq!(value(snapshot.sample(0, 1)), 3.0);
    assert_eq!(value(snapshot.sample(0, 2)), 4.0);
}

#[test]
fn transport_anchor_roundtrip_reports_latest_sample_and_beats() {
    let mut buffer = ScopeCaptureBuffer::new(8);
    let ch0 = f(&[0.0, 1.0, 2.0, 3.0]);
    buffer.write_block(&[&ch0], 4);
    buffer.set_transport_anchor(Some(12.5f64.to_bits()));

    let anchor = buffer.transport_anchor().expect("anchor should exist");
    assert_eq!(anchor.0, 4);
    assert!((f64::from_bits(anchor.1) - 12.5).abs() < 1.0e-9);
}

#[test]
fn transport_anchor_none_clears_anchor_state() {
    let mut buffer = ScopeCaptureBuffer::new(8);
    let ch0 = f(&[0.0, 1.0, 2.0, 3.0]);
    buffer.write_block(&[&ch0], 4);
    buffer.set_transport_anchor(None);

    assert!(buffer.transport_anchor().is_none());
}

#[test]
fn non_finite_anchor_position_clears_anchor() {
    let mut buffer = ScopeCaptureBuffer::new(8);
    buffer.set_transport_anchor(Some(3.0f64.to_bits()));
    assert_eq!(buffer.transport_anchor(), Some((0, 3.0f64.to_bits())));
    buffer.set_transport_anchor(Some(f64::INFINITY.to_bits()));
    assert!(buffer.transport_anchor().is_none());
    buffer.set_transport_anchor(Some(f64::NAN.to_bits()));
    assert!(buffer.transport_anchor().is_none());
}

#[test]
fn read_after_write_returns_written_frames_across_wraps() {
    let mut buffer = ScopeCaptureBuffer::new(5);
    let mut written: Vec<f32> = Vec::new();
    for block in 0..7 {
        let samples: Vec<f32> = (0..3).map(|i| (block * 3 + i) as f32).collect();
        buffer.write_block(&[&f(&samples)], samples.len());
        written.extend_from_slice(&samples);
        let snapshot = buffer.snapshot_recent(5);
        let expected = &written[written.len().saturating_sub(5)..];
        let got: Vec<f32> = (0..snapshot.sample_count()).map(|i| value(snapshot.sample(0, i))).collect();
        assert_eq!(got, expected);
    }
    assert_eq!(buffer.total_written_samples(), 21);
}

#[test]
fn write_block_captures_first_two_channels_and_pads_short_channels() {
    let mut buffer = ScopeCaptureBuffer::new(16);
    let a = f(&[1.0, 2.0, 3.0]);
    let b = f(&[4.0]);
    let c = f(&[9.0, 9.0, 9.0]);
    buffer.write_block(&[&a, &b, &c], 3);
    let snapshot = buffer.snapshot_recent(3);
    assert_eq!(snapshot.channel_count, 2);
    assert_eq!(snapshot.samples, vec![
        [1.0f32.to_bits(), 4.0f32.to_bits()],
        [2.0f32.to_bits(), 0],
        [3.0f32.to_bits(), 0],
    ]);
    buffer.write_block(&[], 3);
    buffer.write_block(&[&a], 0);
    assert_eq!(buffer.total_written_samples(), 3);
}

#[test]
fn write_sample_clamps_channel_count() {
    let mut buffer = ScopeCaptureBuffer::new(4);
    buffer.write_sample([1, 2], 0);
    assert_eq!(buffer.total_written_samples(), 0);
    buffer.write_sample([1, 2], 7);
    let snapshot = buffer.snapshot_recent(1);
    assert_eq!(snapshot.channel_count, 2);
    assert_eq!(snapshot.samples, vec![[1, 2]]);
}

#[test]
fn empty_buffer_reads_empty_frames() {
    let buffer = ScopeCaptureBuffer::new(0);
    let snapshot = buffer.snapshot_recent(4);
    assert_eq!(snapshot.channel_count, 0);
    assert_eq!(snapshot.sample_count(), 0);
    assert_eq!(snapshot.sample(0, 0), 0);
}

#[test]
fn process_block_captures_active_delivering_sources() {
    let main = f(&[0.5, -0.5]);
    let side = f(&[0.25, 0.75]);
    let mut buffer = ScopeCaptureBuffer::new(8);
    buffer.capture_process_block(1, &[Some(&main), Some(&side)], 2);
    let snapshot = buffer.snapshot_recent(2);
    assert_eq!(snapshot.channel_count, 1);
    assert_eq!(snapshot.samples, vec![[main[0], 0], [main[1], 0]]);

    buffer.capture_process_block(3, &[Some(&main), Some(&side)], 2);
    let snapshot = buffer.snapshot_recent(2);
    assert_eq!(snapshot.channel_count, 2);
    assert_eq!(snapshot.samples, vec![[main[0], side[0]], [main[1], side[1]]]);

    buffer.capture_process_block(2, &[None, Some(&side)], 1);
    let snapshot = buffer.snapshot_recent(1);
    assert_eq!(snapshot.channel_count, 2);
    assert_eq!(snapshot.samples, vec![[0, side[0]]]);

    buffer.capture_process_block(0, &[Some(&main)], 1);
    let snapshot = buffer.snapshot_recent(1);
    assert_eq!(snapshot.channel_count, 1);
    assert_eq!(snapshot.samples, vec![[0, 0]]);
    assert_eq!(buffer.total_written_samples(), 6);
}

#[test]
fn frame_sample_reads_out_of_range_as_silence() {
    let frame = ScopeFrame { channel_count: 2, samples: vec![[1, 2], [3, 4]] };
    assert_eq!(frame.sample(5, 0), 2);
    assert_eq!(frame.sample(0, 9), 0);
    assert_eq!(frame.duplicate(), frame);
}

#[test]
fn column_ranges_cover_every_sample() {
    for sample_count in 1..40usize {
        for columns in 1..50usize {
            let mut covered = vec![false; sample_count];
            let mut previous_start = 0;
            for column in 0..columns {
                let (start, end) = column_range(column, sample_count, columns);
                assert!(start < end && end <= sample_count);
                assert!(start >= previous_start);
                previous_start = start;
                for slot in covered.iter_mut().take(end).skip(start) {
                    *slot = true;
                }
            }
            assert!(covered.iter().all(|c| *c), "{sample_count} samples, {columns} columns");
        }
    }
    assert_eq!(column_range(1, 256, 32), (8, 16));
    assert_eq!(column_range(4, 3, 8), (1, 2));
}

#[test]
fn frame_channel_samples_selects_one_channel() {
    let frame = ScopeFrame { channel_count: 1, samples: vec![[1, 2], [3, 4]] };
    assert_eq!(frame_channel_samples(&frame, 0), vec![1, 3]);
    assert!(frame_channel_samples(&frame, 1).is_empty());
}

#[test]
fn palette_wraps_around_eight_colors() {
    assert_eq!(palette_color(0), Rgb { r: 136, g: 224, b: 255 });
    assert_eq!(palette_color(7), Rgb { r: 191, g: 255, b: 235 });
    assert_eq!(palette_color(9), palette_color(1));
}

#[test]
fn fresh_buffer_is_empty_and_widest_read_keeps_capacity() {
    let mut buffer = ScopeCaptureBuffer::new(0);
    assert_eq!(buffer.total_written_samples(), 0);
    assert_eq!(buffer.transport_anchor(), None);
    assert_eq!(buffer.snapshot_recent(usize::MAX), ScopeFrame::empty());
    let ch0 = f(&[1.0, 2.0, 3.0]);
    buffer.write_block(&[&ch0], 3);
    let widest = buffer.snapshot_recent(usize::MAX);
    assert_eq!(widest.sample_count(), 1);
    assert_eq!(value(widest.sample(0, 0)), 3.0);

    let mut larger = ScopeCaptureBuffer::new(5);
    larger.write_block(&[&ch0], 3);
    assert_eq!(larger.snapshot_recent(usize::MAX).sample_count(), 3);
}
