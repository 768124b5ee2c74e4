use realtime_backend::frames::{deinterleave_into, interleave};
use realtime_backend::telemetry::{AudioTelemetry, NoTelemetry, TelemetryPort};

#[test]
fn interleave_orders_left_then_right() {
    let frames = [(0.1f32, -0.1f32), (0.2, -0.2), (0.3, -0.3)];
    let flat = interleave(&frames);
    assert_eq!(flat.len(), 6);
    assert_eq!(flat, vec![0.1, -0.1, 0.2, -0.2, 0.3, -0.3]);
    let empty: [(f32, f32); 0] = [];
    assert!(interleave(&empty).is_empty());
}

#[test]
fn deinterleave_round_trips() {
    let flat = vec![1.0f32, 2.0, 3.0, 4.0];
    let mut frames = [(0.0f32, 0.0f32); 2];
    deinterleave_into(&mut frames, &flat);
    assert_eq!(frames, [(1.0, 2.0), (3.0, 4.0)]);
    assert_eq!(interleave(&frames), flat);
}

#[test]
fn telemetry_counts_and_keeps_the_peak() {
    let t = AudioTelemetry::new();
    assert_eq!(t.drain(), (0, 0));
    t.record_block(0.25f32.to_bits());
    t.record_block(0.75f32.to_bits());
    t.record_block(0.5f32.to_bits());
    let (blocks, amp) = t.drain();
    assert_eq!(blocks, 3);
    assert_eq!(f32::from_bits(amp), 0.75);
    assert_eq!(t.drain(), (0, 0));
    t.update_max_amp(1.5f32.to_bits());
    assert_eq!(f32::from_bits(t.drain().1), 1.5);
}

#[test]
fn disabled_telemetry_reports_nothing() {
    let t = NoTelemetry;
    t.record_block(0.5f32.to_bits());
    assert_eq!(t.drain(), (0, 0));
}
