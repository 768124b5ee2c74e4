//! Observability of the delivery path: a port that the hardware callback
//! reports through, lock-free counters behind it that a diagnostic thread
//! drains, and a no-op port for when telemetry is off.
use std::sync::atomic::{AtomicU32, AtomicU64, Ordering};
use vstd::prelude::*;

verus! {

/// Where the delivery path reports what it delivered.
pub trait TelemetryPort {
    /// Reports a delivered block whose largest absolute sample has the bit
    /// pattern `max_abs_bits`.
    fn record_block(&self, max_abs_bits: u32);

    /// Takes what was reported since the last drain: the block count and
    /// the largest amplitude's bit pattern.
    fn drain(&self) -> (u64, u32);
}

/// A port that records nothing.
pub struct NoTelemetry;

impl TelemetryPort for NoTelemetry {
    fn record_block(&self, max_abs_bits: u32) {
    }

    fn drain(&self) -> (r: (u64, u32))
        ensures
            r == (0u64, 0u32),
    {
        (0, 0)
    }
}

/// Blocks delivered and the largest absolute sample since the last drain.
/// The amplitude is held as the bit pattern of a non-negative `f32`, whose
/// order as an unsigned integer is the order of the values.
pub struct AudioTelemetry {
    block_count: AtomicU64,
    max_amp_bits: AtomicU32,
}

impl AudioTelemetry {
    /// No blocks, zero amplitude.
    pub fn new() -> (r: AudioTelemetry) {
        AudioTelemetry { block_count: AtomicU64::new(0), max_amp_bits: AtomicU32::new(0) }
    }

    /// Raises the recorded amplitude to `bits` if that is larger.
    pub fn update_max_amp(&self, bits: u32) {
        self.max_amp_bits.fetch_max(bits, Ordering::Relaxed);
    }

}

impl TelemetryPort for AudioTelemetry {
    /// Counts the block and raises the recorded amplitude.
    fn record_block(&self, max_abs_bits: u32) {
        self.block_count.fetch_add(1, Ordering::Relaxed);
        self.update_max_amp(max_abs_bits);
    }

    /// Takes the counts since the last drain, leaving zeros.
    fn drain(&self) -> (r: (u64, u32)) {
        let blocks = self.block_count.swap(0, Ordering::Relaxed);
        let amp = self.max_amp_bits.swap(0, Ordering::Relaxed);
        (blocks, amp)
    }
}

} // verus!
