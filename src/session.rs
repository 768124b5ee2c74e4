//! The explicit session handle: the producer end of the command queue, the
//! stop channel and the playback counters shared with the production thread.
use std::sync::atomic::{AtomicBool, AtomicU64, Ordering};
use std::sync::Arc;
use ringbuf::traits::{Producer, Split};
use vstd::prelude::*;

verus! {

#[verifier::external_type_specification]
#[verifier::external_body]
#[verifier::reject_recursive_types(T)]
pub struct ExSender<T>(crossbeam::channel::Sender<T>);

#[verifier::external_type_specification]
#[verifier::external_body]
#[verifier::reject_recursive_types(T)]
pub struct ExReceiver<T>(crossbeam::channel::Receiver<T>);

/// Capacity of a session's command queue.
pub const COMMAND_QUEUE_CAPACITY: usize = 1024;

/// The producer end of a session's command ring (ringbuf's `HeapProd`).
/// Opaque: the ring is shared with the production thread, so what it holds
/// is never a function of this end alone.
#[verifier::external_body]
pub struct CommandSender {
    prod: ringbuf::HeapProd<Command>,
}

/// The consumer end of a session's command ring (ringbuf's `HeapCons`), read
/// by the production thread.
#[verifier::external_body]
pub struct CommandReceiver {
    pub cons: ringbuf::HeapCons<Command>,
}

/// The commands that a producer end of the command ring has accepted, in
/// order.
pub uninterp spec fn pushed_of(q: CommandSender) -> Seq<Command>;

/// The stop signals that a sender has delivered into its channel.
pub uninterp spec fn stops_sent_of(tx: crossbeam::channel::Sender<()>) -> nat;

/// Relies on ringbuf's `HeapRb::new` and `Split::split`: a ring of
/// `capacity` slots (a zero capacity is refused there), as its two ends;
/// nothing has been pushed yet.
#[verifier::external_body]
fn command_ring(capacity: usize) -> (r: (CommandSender, CommandReceiver))
    requires
        capacity > 0,
    ensures
        pushed_of(r.0) == Seq::<Command>::empty(),
{
    let (prod, cons) = ringbuf::HeapRb::<Command>::new(capacity).split();
    (CommandSender { prod }, CommandReceiver { cons })
}

/// Relies on crossbeam's `channel::unbounded`: a fresh channel's two ends,
/// with nothing sent yet.
#[verifier::external_body]
fn stop_channel() -> (r: (crossbeam::channel::Sender<()>, crossbeam::channel::Receiver<()>))
    ensures
        stops_sent_of(r.0) == 0,
{
    crossbeam::channel::unbounded()
}

/// A command for the production thread, applied in submission order before
/// the next chunk is synthesised.
///
/// Gains and positions travel as the IEEE-754 bit patterns of their values
/// (`f32::to_bits`, `f64::to_bits`); the control logic never reads them.
pub enum Command {
    /// Replace the full track configuration (JSON text).
    UpdateTrack(String),
    /// Replace only the realtime-tunable part of the configuration (JSON text).
    UpdateRealtime(String),
    /// Enable or disable accelerated mixing.
    EnableGpu(bool),
    /// Pause (`true`) or resume (`false`) playback.
    SetPaused(bool),
    /// Seek to an absolute position, in seconds (bits of an `f64`).
    StartFrom(u64),
    /// Master output gain (bits of an `f32`).
    SetMasterGain(u32),
    /// Binaural-beat gain override (bits of an `f32`).
    SetBinauralGain(u32),
    /// Noise gain override (bits of an `f32`).
    SetNoiseGain(u32),
    /// Normalization-level override (bits of an `f32`).
    SetNormalizationLevel(u32),
    /// Samples for a streamed overlay clip (bits of `f32`s), with an
    /// end-of-clip marker.
    PushClipSamples { index: usize, data: Vec<u32>, finished: bool },
}

/// Playback counters written by the production thread and read by the UI.
pub struct PlaybackState {
    pub elapsed_samples: Arc<AtomicU64>,
    pub current_step: Arc<AtomicU64>,
    pub is_paused: Arc<AtomicBool>,
}

/// One running audio session, owned by the caller.
pub struct EngineState {
    command_producer: CommandSender,
    stop_sender: crossbeam::channel::Sender<()>,
    elapsed_samples: Arc<AtomicU64>,
    current_step: Arc<AtomicU64>,
    is_paused: Arc<AtomicBool>,
    sample_rate: u32,
}

/// Relies on ringbuf's `Producer::try_push`: it writes the item at the
/// write index and advances it by one, or hands the same item back unwritten
/// when the ring is full.
#[verifier::external_body]
fn try_push_command(queue: &mut CommandSender, cmd: Command) -> (r: Result<(), Command>)
    ensures
        r is Ok ==> pushed_of(*final(queue)) == pushed_of(*old(queue)).push(cmd),
        r is Err ==> pushed_of(*final(queue)) == pushed_of(*old(queue)),
        r matches Err(c) ==> c == cmd,
{
    queue.prod.try_push(cmd)
}

/// Relies on crossbeam's `Sender::try_send`: it never blocks; on success the
/// signal is in the channel, and it fails, sending nothing, when the channel
/// is full or its receiving end is gone.
#[verifier::external_body]
fn send_stop(tx: &mut crossbeam::channel::Sender<()>) -> (r: bool)
    ensures
        r ==> stops_sent_of(*final(tx)) == stops_sent_of(*old(tx)) + 1,
        !r ==> stops_sent_of(*final(tx)) == stops_sent_of(*old(tx)),
{
    tx.try_send(()).is_ok()
}

impl PlaybackState {
    /// Fresh counters: no sample played, first step, not paused.
    pub fn new() -> (r: PlaybackState) {
        PlaybackState {
            elapsed_samples: Arc::new(AtomicU64::new(0)),
            current_step: Arc::new(AtomicU64::new(0)),
            is_paused: Arc::new(AtomicBool::new(false)),
        }
    }
}

impl EngineState {
    /// Opens a session at `sample_rate`: an empty command queue, a stop
    /// channel and fresh counters. The production thread takes the returned
    /// receiving ends and a clone of the counters.
    pub fn open(sample_rate: u32) -> (r: (EngineState, CommandReceiver, crossbeam::channel::Receiver<()>, PlaybackState))
        ensures
            r.0.sample_rate() == sample_rate,
            r.0.submitted() == Seq::<Command>::empty(),
            r.0.stops_sent() == 0,
    {
        let (command_producer, command_consumer) = command_ring(COMMAND_QUEUE_CAPACITY);
        let (stop_sender, stop_receiver) = stop_channel();
        let counters = PlaybackState::new();
        let engine = EngineState {
            command_producer,
            stop_sender,
            elapsed_samples: counters.elapsed_samples.clone(),
            current_step: counters.current_step.clone(),
            is_paused: counters.is_paused.clone(),
            sample_rate,
        };
        (engine, command_consumer, stop_receiver, counters)
    }

    pub closed spec fn sample_rate(&self) -> u32 {
        self.sample_rate
    }

    /// The commands that the queue accepted, in submission order.
    pub closed spec fn submitted(&self) -> Seq<Command> {
        pushed_of(self.command_producer)
    }

    /// The stop signals sent to the production thread.
    pub closed spec fn stops_sent(&self) -> nat {
        stops_sent_of(self.stop_sender)
    }

    /// Signals the production thread to stop, without waiting; returns
    /// whether the signal went into the session's stop channel.
    pub fn signal_stop(&mut self) -> (sent: bool)
        ensures
            final(self).sample_rate() == old(self).sample_rate(),
            final(self).submitted() == old(self).submitted(),
            sent ==> final(self).stops_sent() == old(self).stops_sent() + 1,
            !sent ==> final(self).stops_sent() == old(self).stops_sent(),
    {
        send_stop(&mut self.stop_sender)
    }

    /// Queues a command without waiting; returns whether the queue took it.
    /// A full queue drops the command.
    pub fn submit(&mut self, cmd: Command) -> (accepted: bool)
        ensures
            final(self).sample_rate() == old(self).sample_rate(),
            final(self).stops_sent() == old(self).stops_sent(),
            accepted ==> final(self).submitted() == old(self).submitted().push(cmd),
            !accepted ==> final(self).submitted() == old(self).submitted(),
    {
        match try_push_command(&mut self.command_producer, cmd) {
            Ok(()) => true,
            Err(_) => false,
        }
    }
}

/// What a command submission leaves of a session: none stays none, and a
/// running session keeps its rate and its stop signals, and its command
/// ring has accepted `cmd` after what it held, or nothing (when full).
pub open spec fn submitted_or_dropped(
    before: Option<EngineState>,
    after: Option<EngineState>,
    cmd: Command,
) -> bool {
    match before {
        None => after is None,
        Some(b) => match after {
            None => false,
            Some(a) => a.sample_rate() == b.sample_rate() && a.stops_sent() == b.stops_sent() && (
            a.submitted() == b.submitted()
                || a.submitted() == b.submitted().push(cmd)),
        },
    }
}

fn submit_to_session(engine: &mut Option<EngineState>, cmd: Command)
    ensures
        submitted_or_dropped(*old(engine), *final(engine), cmd),
{
    match engine {
        Some(state) => {
            let _ = state.submit(cmd);
        },
        None => {},
    }
}

/// Ends the session, if any: signals its production thread to stop (see
/// [`EngineState::signal_stop`]) and drops the handle. Returns whether a
/// stop signal went out; with no session nothing happens.
pub fn stop_audio_session(engine: &mut Option<EngineState>) -> (signalled: bool)
    ensures
        *final(engine) is None,
        *old(engine) is None ==> !signalled,
{
    match engine.take() {
        Some(mut state) => state.signal_stop(),
        None => false,
    }
}

/// Signals a running stream to stop, without waiting; returns whether the
/// signal went into the channel.
pub fn stop_audio_stream(sender: &mut crossbeam::channel::Sender<()>) -> (sent: bool)
    ensures
        sent ==> stops_sent_of(*final(sender)) == stops_sent_of(*old(sender)) + 1,
        !sent ==> stops_sent_of(*final(sender)) == stops_sent_of(*old(sender)),
{
    send_stop(sender)
}

/// Asks the running session, if any, to pause.
pub fn pause_audio(engine: &mut Option<EngineState>)
    ensures
        submitted_or_dropped(*old(engine), *final(engine), Command::SetPaused(true)),
{
    submit_to_session(engine, Command::SetPaused(true));
}

/// Asks the running session, if any, to resume.
pub fn resume_audio(engine: &mut Option<EngineState>)
    ensures
        submitted_or_dropped(*old(engine), *final(engine), Command::SetPaused(false)),
{
    submit_to_session(engine, Command::SetPaused(false));
}

/// Asks the running session, if any, to enable or disable accelerated mixing.
pub fn enable_gpu(engine: &mut Option<EngineState>, enable: bool)
    ensures
        submitted_or_dropped(*old(engine), *final(engine), Command::EnableGpu(enable)),
{
    submit_to_session(engine, Command::EnableGpu(enable));
}

/// Whether a session is running.
pub fn is_audio_playing(engine: &Option<EngineState>) -> (r: bool)
    ensures
        r == engine.is_some(),
{
    engine.is_some()
}

/// The running session's sample rate.
pub fn get_sample_rate(engine: &Option<EngineState>) -> (r: Option<u32>)
    ensures
        r == (match engine {
            Some(s) => Some(s.sample_rate()),
            None => None,
        }),
{
    match engine {
        Some(s) => Some(s.sample_rate),
        None => None,
    }
}

/// Samples played so far by the running session (as last published by the
/// production thread).
pub fn get_elapsed_samples(engine: &Option<EngineState>) -> (r: Option<u64>)
    ensures
        r is Some <==> engine is Some,
{
    match engine {
        Some(s) => Some(s.elapsed_samples.load(Ordering::Relaxed)),
        None => None,
    }
}

/// The running session's current step index (0-based).
pub fn get_current_step(engine: &Option<EngineState>) -> (r: Option<u64>)
    ensures
        r is Some <==> engine is Some,
{
    match engine {
        Some(s) => Some(s.current_step.load(Ordering::Relaxed)),
        None => None,
    }
}

/// Whether the running session is paused.
pub fn get_is_paused(engine: &Option<EngineState>) -> (r: Option<bool>)
    ensures
        r is Some <==> engine is Some,
{
    match engine {
        Some(s) => Some(s.is_paused.load(Ordering::Relaxed)),
        None => None,
    }
}

/// Publishes the scheduler's position, step and pause flag to the counters.
pub fn update_playback_state(
    playback_state: &Option<PlaybackState>,
    absolute_sample: u64,
    current_step: usize,
    paused: bool,
) {
    if let Some(state) = playback_state {
        state.elapsed_samples.store(absolute_sample, Ordering::Relaxed);
        state.current_step.store(current_step as u64, Ordering::Relaxed);
        state.is_paused.store(paused, Ordering::Relaxed);
    }
}

} // verus!
