//! The double-buffered noise source: which sample of which buffer is played
//! next, when the spent buffer goes back to the generation worker, when the
//! replacement is swapped in, and how an underrun loops the active buffer.
//!
//! The samples themselves stay with the caller. Each step hands back a
//! [`SamplePlan`]: the indices to read and the blend positions, whose weights
//! are raised-cosine curves over `pos / len`.
use vstd::prelude::*;

verus! {

/// Samples over which the end of a buffer is blended into the next one.
pub const CROSSFADE_SAMPLES: usize = 2048;

/// Length of the blend from an exhausted buffer's tail into its restarted
/// head after an underrun.
pub const UNDERRUN_FADE_SAMPLES: usize = 512;

/// Default length of a generated noise buffer (about 0.74 s at 44.1 kHz).
pub const DEFAULT_NOISE_BUFFER: usize = 32768;

/// Smallest generated noise buffer.
pub const MIN_NOISE_BUFFER: usize = 8;

/// The size of the buffers generated for a clip of `requested` samples.
pub open spec fn noise_buffer_size_spec(requested: nat) -> nat {
    let base = if 0 < requested && requested < DEFAULT_NOISE_BUFFER { requested } else { DEFAULT_NOISE_BUFFER as nat };
    let floored = if base < MIN_NOISE_BUFFER { MIN_NOISE_BUFFER as nat } else { base };
    if floored % 2 == 1 { floored + 1 } else { floored }
}

/// Buffer length for a clip of `requested` samples: the default length, or
/// the request when it is shorter, never under the minimum, rounded up to
/// an even count.
pub fn noise_buffer_size(requested: usize) -> (r: usize)
    ensures
        r == noise_buffer_size_spec(requested as nat),
        MIN_NOISE_BUFFER <= r <= DEFAULT_NOISE_BUFFER,
        r % 2 == 0,
{
    let mut size: usize = if requested > 0 && requested < DEFAULT_NOISE_BUFFER {
        requested
    } else {
        DEFAULT_NOISE_BUFFER
    };
    if size < MIN_NOISE_BUFFER {
        size = MIN_NOISE_BUFFER;
    }
    if size % 2 != 0 {
        size = size + 1;
    }
    size
}

/// What a non-blocking poll of the generation worker returned.
pub enum WorkerReply {
    /// A regenerated buffer of this many samples arrived.
    Ready(usize),
    /// Nothing yet.
    Pending,
    /// The worker is gone.
    Closed,
}

/// Blend of the active buffer's tail into the start of the next buffer:
/// weight of the next buffer is `(1 - cos(pi * pos / len)) / 2`.
pub struct Crossfade {
    /// Index into the next buffer; `None` where it is too short (a zero sample).
    pub next_index: Option<usize>,
    pub pos: usize,
    pub len: usize,
}

/// Blend of the exhausted buffer's tail into its restarted head after an
/// underrun: weight of the head is `(1 - cos(pi * pos / len)) / 2`. The tail
/// is read backward from the buffer's last sample, the one played just
/// before the restart, so the first faded sample repeats it.
pub struct UnderrunFade {
    /// Index of the tail sample in the active buffer.
    pub tail_index: usize,
    pub pos: usize,
    pub len: usize,
}

/// What to play for one output sample.
pub struct SamplePlan {
    /// Swap the active and next buffers before reading.
    pub swapped: bool,
    /// The active buffer ran out with no replacement ready: it restarts.
    pub underrun: bool,
    /// Index into the (possibly swapped) active buffer.
    pub read: usize,
    pub crossfade: Option<Crossfade>,
    pub fade: Option<UnderrunFade>,
}

/// Cursor state of the double-buffered noise source.
pub struct NoiseSchedule {
    /// Nominal buffer length: the early trigger sits at half of it.
    pub size: usize,
    /// Length of the buffer being played.
    pub active_len: usize,
    /// Length of the buffer held as the next one.
    pub next_len: usize,
    /// Position in the active buffer.
    pub cursor: usize,
    /// The next buffer holds fresh samples.
    pub next_ready: bool,
    /// A regeneration request is in flight.
    pub requested: bool,
    pub underrun_recovering: bool,
    pub underrun_fade_pos: usize,
}

pub open spec fn min(a: nat, b: nat) -> nat {
    if a <= b { a } else { b }
}

impl NoiseSchedule {
    pub open spec fn wf(&self) -> bool {
        &&& 1 <= self.active_len
        &&& self.cursor <= self.active_len
        &&& self.underrun_fade_pos <= UNDERRUN_FADE_SAMPLES
        &&& !(self.next_ready && self.requested)
        &&& self.next_ready ==> self.next_len >= 1
    }

    /// Crossfade length for the active buffer.
    pub open spec fn crossfade_len(&self) -> nat {
        min(self.active_len as nat, CROSSFADE_SAMPLES as nat)
    }

    /// The spent next buffer goes back to the worker once half of the active
    /// buffer has played.
    pub open spec fn recycle_due_spec(&self) -> bool {
        !self.next_ready && !self.requested && self.cursor >= self.size / 2
    }

    /// The state once the end of the active buffer has been handled.
    pub open spec fn switched(&self) -> NoiseSchedule {
        if self.cursor < self.active_len {
            *self
        } else if self.next_ready && min(self.crossfade_len(), self.next_len as nat) < self.next_len {
            NoiseSchedule {
                active_len: self.next_len,
                next_len: self.active_len,
                cursor: min(self.crossfade_len(), self.next_len as nat) as usize,
                next_ready: false,
                underrun_recovering: false,
                underrun_fade_pos: 0,
                ..*self
            }
        } else if self.next_ready {
            // the whole replacement was already blended in: it restarts
            NoiseSchedule {
                active_len: self.next_len,
                next_len: self.active_len,
                cursor: 0,
                next_ready: false,
                underrun_recovering: true,
                underrun_fade_pos: 0,
                ..*self
            }
        } else {
            NoiseSchedule { cursor: 0, underrun_recovering: true, underrun_fade_pos: 0, ..*self }
        }
    }

    /// The crossfade for the sample at `self.cursor`, with `xf` samples of
    /// crossfade.
    pub open spec fn crossfade_at(&self, xf: nat) -> Option<Crossfade> {
        let start = if self.active_len >= xf { self.active_len - xf } else { 0 };
        if self.next_ready && self.cursor >= start && xf > 0 && self.next_len > 0 {
            let idx = (self.cursor - start) as nat;
            Some(Crossfade {
                next_index: if idx < self.next_len { Some(idx as usize) } else { None },
                pos: idx as usize,
                len: xf as usize,
            })
        } else {
            None
        }
    }

    /// The underrun fade for the sample at `self.cursor`.
    pub open spec fn fade_at(&self) -> Option<UnderrunFade> {
        if self.underrun_recovering && self.underrun_fade_pos < UNDERRUN_FADE_SAMPLES {
            let tail = if self.active_len > self.underrun_fade_pos {
                (self.active_len - 1 - self.underrun_fade_pos) as nat
            } else {
                0
            };
            Some(UnderrunFade {
                tail_index: tail as usize,
                pos: self.underrun_fade_pos,
                len: UNDERRUN_FADE_SAMPLES,
            })
        } else {
            None
        }
    }

    /// The state after the sample at `self.cursor` was played.
    pub open spec fn played(&self) -> NoiseSchedule {
        if self.underrun_recovering && self.underrun_fade_pos < UNDERRUN_FADE_SAMPLES {
            NoiseSchedule {
                cursor: (self.cursor + 1) as usize,
                underrun_fade_pos: (self.underrun_fade_pos + 1) as usize,
                ..*self
            }
        } else if self.underrun_recovering {
            NoiseSchedule {
                cursor: (self.cursor + 1) as usize,
                underrun_recovering: false,
                underrun_fade_pos: 0,
                ..*self
            }
        } else {
            NoiseSchedule { cursor: (self.cursor + 1) as usize, ..*self }
        }
    }

    /// The plan for the next sample.
    pub open spec fn plan_spec(&self) -> SamplePlan {
        let t = self.switched();
        SamplePlan {
            swapped: self.cursor >= self.active_len && self.next_ready,
            underrun: self.cursor >= self.active_len && !(self.next_ready && min(
                self.crossfade_len(),
                self.next_len as nat,
            ) < self.next_len),
            read: t.cursor,
            crossfade: t.crossfade_at(self.crossfade_len()),
            fade: t.fade_at(),
        }
    }

    /// The state after the next sample.
    pub open spec fn advanced(&self) -> NoiseSchedule {
        self.switched().played()
    }

    /// A primed source: a buffer of `size` samples playing from its start,
    /// and a second one ready.
    pub fn primed(size: usize) -> (r: NoiseSchedule)
        requires
            size >= 1,
        ensures
            r.wf(),
            r == (NoiseSchedule {
                size,
                active_len: size,
                next_len: size,
                cursor: 0,
                next_ready: true,
                requested: false,
                underrun_recovering: false,
                underrun_fade_pos: 0,
            }),
    {
        NoiseSchedule {
            size,
            active_len: size,
            next_len: size,
            cursor: 0,
            next_ready: true,
            requested: false,
            underrun_recovering: false,
            underrun_fade_pos: 0,
        }
    }

    /// Whether the spent next buffer should now go back to the worker.
    pub fn recycle_due(&self) -> (r: bool)
        ensures
            r == self.recycle_due_spec(),
    {
        !self.next_ready && !self.requested && self.cursor >= self.size / 2
    }

    /// Records the attempt to send the spent next buffer to the worker: its
    /// storage is gone either way, and a request is in flight if it was sent.
    pub fn note_recycle(&mut self, sent: bool)
        requires
            old(self).wf(),
            old(self).recycle_due_spec(),
        ensures
            final(self).wf(),
            *final(self) == (NoiseSchedule { next_len: 0, requested: sent, ..*old(self) }),
    {
        self.next_len = 0;
        self.requested = sent;
    }

    /// Whether a reply from the worker is awaited.
    pub fn awaiting_reply(&self) -> (r: bool)
        ensures
            r == self.requested,
    {
        self.requested
    }

    /// Records what polling the worker returned. A non-empty buffer becomes
    /// the next one; an empty one is kept as spent storage.
    pub fn note_reply(&mut self, reply: WorkerReply)
        requires
            old(self).wf(),
            old(self).requested,
        ensures
            final(self).wf(),
            *final(self) == (match reply {
                WorkerReply::Ready(len) => NoiseSchedule {
                    next_len: len,
                    next_ready: len > 0,
                    requested: false,
                    ..*old(self)
                },
                WorkerReply::Pending => *old(self),
                WorkerReply::Closed => NoiseSchedule { requested: false, ..*old(self) },
            }),
    {
        match reply {
            WorkerReply::Ready(len) => {
                self.next_len = len;
                self.next_ready = len > 0;
                self.requested = false;
            },
            WorkerReply::Pending => {},
            WorkerReply::Closed => {
                self.requested = false;
            },
        }
    }

    /// Plans the next output sample and advances the cursor.
    pub fn advance(&mut self) -> (plan: SamplePlan)
        requires
            old(self).wf(),
        ensures
            final(self).wf(),
            *final(self) == old(self).advanced(),
            plan == old(self).plan_spec(),
            plan.read < final(self).active_len,
            plan.read + 1 == final(self).cursor,
            old(self).cursor < old(self).active_len ==> plan.read == old(self).cursor
                && !plan.swapped && !plan.underrun,
            old(self).cursor >= old(self).active_len && !old(self).next_ready ==> plan.underrun
                && !plan.swapped && plan.read == 0 && final(self).active_len == old(self).active_len,
            old(self).cursor >= old(self).active_len && old(self).next_ready && old(
                self,
            ).crossfade_len() < old(self).next_len ==> plan.swapped && !plan.underrun && plan.read
                == old(self).crossfade_len() && final(self).active_len == old(self).next_len
                && !final(self).next_ready,
            plan.underrun ==> (plan.fade matches Some(f) && f.pos == 0),
            plan.crossfade matches Some(c) ==> c.pos < c.len && (c.next_index matches Some(
                i,
            ) ==> i < final(self).next_len),
            plan.fade matches Some(f) ==> f.tail_index < final(self).active_len && f.pos < f.len,
    {
        let xf: usize = if self.active_len < CROSSFADE_SAMPLES {
            self.active_len
        } else {
            CROSSFADE_SAMPLES
        };
        let mut swapped = false;
        let mut underrun = false;
        if self.cursor >= self.active_len {
            if self.next_ready {
                let skip: usize = if xf < self.next_len { xf } else { self.next_len };
                let spent = self.active_len;
                self.active_len = self.next_len;
                self.next_len = spent;
                self.cursor = skip;
                self.next_ready = false;
                self.underrun_recovering = false;
                self.underrun_fade_pos = 0;
                swapped = true;
                if self.cursor >= self.active_len {
                    self.cursor = 0;
                    self.underrun_recovering = true;
                    underrun = true;
                }
            } else {
                self.cursor = 0;
                self.underrun_recovering = true;
                self.underrun_fade_pos = 0;
                underrun = true;
            }
        }
        let crossfade = if self.next_ready {
            let start: usize = if self.active_len >= xf { self.active_len - xf } else { 0 };
            if self.cursor >= start && xf > 0 && self.next_len > 0 {
                let idx = self.cursor - start;
                Some(Crossfade {
                    next_index: if idx < self.next_len { Some(idx) } else { None },
                    pos: idx,
                    len: xf,
                })
            } else {
                None
            }
        } else {
            None
        };
        let fade = if self.underrun_recovering {
            if self.underrun_fade_pos < UNDERRUN_FADE_SAMPLES {
                let tail: usize = if self.active_len > self.underrun_fade_pos {
                    self.active_len - 1 - self.underrun_fade_pos
                } else {
                    0
                };
                let pos = self.underrun_fade_pos;
                self.underrun_fade_pos = self.underrun_fade_pos + 1;
                Some(UnderrunFade {
                    tail_index: tail,
                    pos,
                    len: UNDERRUN_FADE_SAMPLES,
                })
            } else {
                self.underrun_recovering = false;
                self.underrun_fade_pos = 0;
                None
            }
        } else {
            None
        };
        let read = self.cursor;
        self.cursor = self.cursor + 1;
        SamplePlan { swapped, underrun, read, crossfade, fade }
    }
}

/// The state after `n` output samples, with no reply from the worker.
pub open spec fn advanced_n(s: NoiseSchedule, n: nat) -> NoiseSchedule
    decreases n,
{
    if n == 0 {
        s
    } else {
        advanced_n(s, (n - 1) as nat).advanced()
    }
}

/// Underrun recovery: when the active buffer runs out with no replacement
/// ready, playback restarts the buffer at its first sample, and for the
/// length of the fade the `k`-th sample after the restart reads head sample
/// `k` blended with tail sample `len - 1 - k` at fade position `k`. The first
/// one is all tail: the sample played just before the restart, so the seam
/// adds no step; after it both sides of the blend move by one sample at a
/// time, and the state stays well formed throughout.
pub proof fn lemma_underrun_recovery(s: NoiseSchedule, k: nat)
    requires
        s.wf(),
        !s.next_ready,
        s.cursor == s.active_len,
        s.active_len > UNDERRUN_FADE_SAMPLES,
        k < UNDERRUN_FADE_SAMPLES,
    ensures
        advanced_n(s, k).wf(),
        advanced_n(s, k).plan_spec().read == k,
        advanced_n(s, k).plan_spec().underrun == (k == 0),
        advanced_n(s, k).plan_spec().crossfade is None,
        advanced_n(s, k).plan_spec().fade == Some(
            UnderrunFade {
                tail_index: (s.active_len - 1 - k) as usize,
                pos: k as usize,
                len: UNDERRUN_FADE_SAMPLES,
            },
        ),
{
    lemma_recovery_state(s, k);
}

/// No reply for a whole buffer: from any point of the active buffer with no
/// replacement ready, once the rest of the buffer has played the next sample
/// is an underrun restart, read at index 0 with the fade at position 0 and
/// its tail on the buffer's last sample. Recycle attempts and `Pending`
/// replies leave the cursor alone (see [`lemma_waiting_leaves_cursor`]).
pub proof fn lemma_no_reply_underrun(s: NoiseSchedule)
    requires
        s.wf(),
        !s.next_ready,
    ensures
        advanced_n(s, (s.active_len - s.cursor) as nat).wf(),
        advanced_n(s, (s.active_len - s.cursor) as nat).active_len == s.active_len,
        advanced_n(s, (s.active_len - s.cursor) as nat).plan_spec().underrun,
        advanced_n(s, (s.active_len - s.cursor) as nat).plan_spec().read == 0,
        advanced_n(s, (s.active_len - s.cursor) as nat).plan_spec().fade == Some(
            UnderrunFade {
                tail_index: (s.active_len - 1) as usize,
                pos: 0,
                len: UNDERRUN_FADE_SAMPLES,
            },
        ),
{
    lemma_plays_through(s, (s.active_len - s.cursor) as nat);
}

/// Playing `k` samples of the active buffer with no replacement ready.
proof fn lemma_plays_through(s: NoiseSchedule, k: nat)
    requires
        s.wf(),
        !s.next_ready,
        s.cursor + k <= s.active_len,
    ensures
        advanced_n(s, k).wf(),
        !advanced_n(s, k).next_ready,
        advanced_n(s, k).cursor == s.cursor + k,
        advanced_n(s, k).active_len == s.active_len,
    decreases k,
{
    if k > 0 {
        lemma_plays_through(s, (k - 1) as nat);
        assert(advanced_n(s, k) == advanced_n(s, (k - 1) as nat).advanced());
    }
}

/// While no replacement is ready, what the cursor does does not depend on
/// the length of the spent next buffer or on whether a request is in flight:
/// recycling it or waiting for the worker changes nothing that is played.
pub proof fn lemma_waiting_leaves_cursor(s: NoiseSchedule, next_len: usize, requested: bool)
    requires
        !s.next_ready,
    ensures
        (NoiseSchedule { next_len, requested, ..s }).plan_spec() == s.plan_spec(),
        (NoiseSchedule { next_len, requested, ..s }).advanced() == (NoiseSchedule {
            next_len,
            requested,
            ..s.advanced()
        }),
{
}

/// The state `k` samples into an underrun's fade.
proof fn lemma_recovery_state(s: NoiseSchedule, k: nat)
    requires
        s.wf(),
        !s.next_ready,
        s.cursor == s.active_len,
        s.active_len > UNDERRUN_FADE_SAMPLES,
        k <= UNDERRUN_FADE_SAMPLES,
    ensures
        k > 0 ==> advanced_n(s, k) == (NoiseSchedule {
            cursor: k as usize,
            underrun_recovering: true,
            underrun_fade_pos: k as usize,
            ..s
        }),
        k == 0 ==> advanced_n(s, k) == s,
    decreases k,
{
    if k > 0 {
        assert(advanced_n(s, k) == advanced_n(s, (k - 1) as nat).advanced());
        if k > 1 {
            lemma_recovery_state(s, (k - 1) as nat);
        } else {
            assert(advanced_n(s, 0) == s);
        }
    } else {
        assert(advanced_n(s, 0) == s);
    }
}

} // verus!
