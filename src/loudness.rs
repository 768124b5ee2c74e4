//! Decisions of the loudness policies. The measurements (RMS ratios, the
//! hysteresis test) are made by the caller on the samples; these state
//! machines decide what the gain does with them.
use vstd::prelude::*;

verus! {

/// Samples per post-filter loudness measurement window.
pub const RENORM_WINDOW: usize = 16384;

/// What to do with the makeup gain at the end of a window.
pub enum GainUpdate {
    /// Leave the gain where it is.
    Keep,
    /// Jump both the target and the applied gain to the measured ratio.
    Reset,
    /// Move the target a fifth of the way toward the measured ratio.
    Blend,
    /// Fall back to unity gain.
    Unity,
}

/// The makeup-gain policy: `locked` for unmodulated noise (set from the
/// first window and never revisited), otherwise tracked with hysteresis.
pub struct RenormPolicy {
    pub locked: bool,
    pub initialized: bool,
    /// Samples measured in the current window.
    pub window_fill: usize,
}

/// The gain update at the end of a window, from whether both levels were
/// measurable and whether the measured ratio differs from the current gain
/// by more than the hysteresis ratio.
pub open spec fn gain_update_spec(p: RenormPolicy, measurable: bool, beyond_hysteresis: bool) -> GainUpdate {
    if !measurable {
        if p.initialized { GainUpdate::Keep } else { GainUpdate::Unity }
    } else if p.locked {
        if p.initialized { GainUpdate::Keep } else { GainUpdate::Reset }
    } else if !beyond_hysteresis {
        GainUpdate::Keep
    } else if p.initialized {
        GainUpdate::Blend
    } else {
        GainUpdate::Reset
    }
}

impl RenormPolicy {
    pub open spec fn wf(&self) -> bool {
        self.window_fill < RENORM_WINDOW
    }

    /// A policy that has measured nothing yet.
    pub fn new(locked: bool) -> (r: RenormPolicy)
        ensures
            r.wf(),
            r == (RenormPolicy { locked, initialized: false, window_fill: 0 }),
    {
        RenormPolicy { locked, initialized: false, window_fill: 0 }
    }

    /// Counts one measured sample; returns whether it completed a window
    /// (the count then starts over).
    pub fn note_sample(&mut self) -> (complete: bool)
        requires
            old(self).wf(),
        ensures
            final(self).wf(),
            complete == (old(self).window_fill + 1 == RENORM_WINDOW),
            final(self).window_fill == if complete { 0 } else { old(self).window_fill + 1 },
            final(self).locked == old(self).locked,
            final(self).initialized == old(self).initialized,
    {
        if self.window_fill + 1 >= RENORM_WINDOW {
            self.window_fill = 0;
            true
        } else {
            self.window_fill = self.window_fill + 1;
            false
        }
    }

    /// Decides the gain update at the end of a window.
    pub fn decide(&mut self, measurable: bool, beyond_hysteresis: bool) -> (r: GainUpdate)
        requires
            old(self).wf(),
        ensures
            final(self).wf(),
            r == gain_update_spec(*old(self), measurable, beyond_hysteresis),
            final(self).initialized == (old(self).initialized || r is Reset || r is Unity),
            final(self).locked == old(self).locked,
            final(self).window_fill == old(self).window_fill,
    {
        let r = if !measurable {
            if self.initialized { GainUpdate::Keep } else { GainUpdate::Unity }
        } else if self.locked {
            if self.initialized { GainUpdate::Keep } else { GainUpdate::Reset }
        } else if !beyond_hysteresis {
            GainUpdate::Keep
        } else if self.initialized {
            GainUpdate::Blend
        } else {
            GainUpdate::Reset
        };
        if !self.initialized {
            match r {
                GainUpdate::Reset => { self.initialized = true; },
                GainUpdate::Unity => { self.initialized = true; },
                _ => {},
            }
        }
        r
    }
}

/// A locked policy is set at most once: once initialised, every later
/// window keeps the gain whatever was measured.
pub proof fn lemma_locked_gain_is_final(p: RenormPolicy, measurable: bool, beyond_hysteresis: bool)
    requires
        p.locked,
        p.initialized,
    ensures
        gain_update_spec(p, measurable, beyond_hysteresis) is Keep,
{
}

/// A tracked policy never moves the gain on a change within the hysteresis
/// band, and never steps an initialised gain: it only blends toward the
/// new target.
pub proof fn lemma_tracked_gain_hysteresis(p: RenormPolicy, measurable: bool, beyond_hysteresis: bool)
    requires
        !p.locked,
    ensures
        !beyond_hysteresis ==> gain_update_spec(p, measurable, beyond_hysteresis) is Keep || (
        gain_update_spec(p, measurable, beyond_hysteresis) is Unity && !p.initialized),
        p.initialized ==> !(gain_update_spec(p, measurable, beyond_hysteresis) is Reset),
{
}

/// What the generation worker does to the loudness of a fresh buffer.
pub enum BufferGain {
    /// Too quiet to measure: left as it is.
    Leave,
    /// Scaled to the locked target RMS and clamped to `[-1, 1]`.
    ScaleToTarget,
    /// Peak-normalised; its RMS becomes the locked target.
    NormalizeAndLock,
}

/// The RMS lock of generated noise buffers.
pub struct RmsLock {
    /// A target RMS was recorded.
    pub locked: bool,
}

pub open spec fn buffer_gain_spec(l: RmsLock, audible: bool, peak_audible: bool) -> BufferGain {
    if !audible {
        BufferGain::Leave
    } else if l.locked {
        BufferGain::ScaleToTarget
    } else if peak_audible {
        BufferGain::NormalizeAndLock
    } else {
        BufferGain::Leave
    }
}

impl RmsLock {
    pub fn new() -> (r: RmsLock)
        ensures
            !r.locked,
    {
        RmsLock { locked: false }
    }

    /// Decides the gain of a fresh buffer from whether its RMS and its peak
    /// are above the audibility floor.
    pub fn decide(&mut self, audible: bool, peak_audible: bool) -> (r: BufferGain)
        ensures
            r == buffer_gain_spec(*old(self), audible, peak_audible),
            final(self).locked == (old(self).locked || r is NormalizeAndLock),
    {
        if !audible {
            BufferGain::Leave
        } else if self.locked {
            BufferGain::ScaleToTarget
        } else if peak_audible {
            self.locked = true;
            BufferGain::NormalizeAndLock
        } else {
            BufferGain::Leave
        }
    }
}

/// The lock after deciding on a run of buffers, given for each whether its
/// RMS and its peak were audible.
pub open spec fn lock_after(l: RmsLock, buffers: Seq<(bool, bool)>) -> RmsLock
    decreases buffers.len(),
{
    if buffers.len() == 0 {
        l
    } else {
        let prev = lock_after(l, buffers.drop_last());
        RmsLock { locked: prev.locked || buffer_gain_spec(prev, buffers.last().0, buffers.last().1) is NormalizeAndLock }
    }
}

/// RMS lock: once a target is recorded it is never recorded again; every
/// later audible buffer is scaled to that same target.
pub proof fn lemma_rms_lock_holds(l: RmsLock, buffers: Seq<(bool, bool)>, audible: bool, peak_audible: bool)
    requires
        l.locked,
    ensures
        lock_after(l, buffers).locked,
        audible ==> buffer_gain_spec(lock_after(l, buffers), audible, peak_audible) is ScaleToTarget,
        !(buffer_gain_spec(lock_after(l, buffers), audible, peak_audible) is NormalizeAndLock),
    decreases buffers.len(),
{
    if buffers.len() > 0 {
        lemma_rms_lock_holds(l, buffers.drop_last(), audible, peak_audible);
    }
}

} // verus!
