use xcope::constants::CAPTURE_BUFFER_CAPACITY;
use xcope::params::XcopeParams;
use xcope::XcopeShared;

#[test]
fn shared_runtime_starts_from_defaults() {
    let shared = XcopeShared::new();
    assert_eq!(shared.params.snapshot(), XcopeParams::new().snapshot());
    assert_eq!(f32::from_bits(shared.sample_rate_hz()), 48_000.0);
    assert_eq!(shared.scope_buffer.total_written_samples(), 0);
    assert_eq!(shared.scope_buffer.snapshot_recent(CAPTURE_BUFFER_CAPACITY).sample_count(), 0);
}

#[test]
fn sample_rate_is_kept_only_when_finite_and_above_one_hertz() {
    let mut shared = XcopeShared::new();
    shared.set_sample_rate_hz(96_000.0f32.to_bits());
    assert_eq!(f32::from_bits(shared.sample_rate_hz()), 96_000.0);
    for rate in [0.5f32, 1.0, -44_100.0, f32::NAN, f32::INFINITY] {
        shared.set_sample_rate_hz(rate.to_bits());
        assert_eq!(f32::from_bits(shared.sample_rate_hz()), 48_000.0);
    }
}
