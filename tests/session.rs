use realtime_backend::session::{
    enable_gpu, get_current_step, get_elapsed_samples, get_is_paused, get_sample_rate,
    is_audio_playing, pause_audio, resume_audio, stop_audio_session, stop_audio_stream,
    update_playback_state,
    Command, EngineState, PlaybackState,
};
use ringbuf::traits::Consumer;
use std::sync::atomic::Ordering;

#[test]
fn no_session_reports_nothing() {
    let mut engine: Option<EngineState> = None;
    assert!(!is_audio_playing(&engine));
    assert_eq!(get_sample_rate(&engine), None);
    assert_eq!(get_elapsed_samples(&engine), None);
    assert_eq!(get_current_step(&engine), None);
    assert_eq!(get_is_paused(&engine), None);
    pause_audio(&mut engine);
    resume_audio(&mut engine);
    enable_gpu(&mut engine, true);
    assert!(engine.is_none());
    assert!(!stop_audio_session(&mut engine));
    assert!(engine.is_none());
}

#[test]
fn open_session_reports_rate_and_counters() {
    let (state, _rx, _stop_rx, counters) = EngineState::open(48000);
    let engine = Some(state);
    assert!(is_audio_playing(&engine));
    assert_eq!(get_sample_rate(&engine), Some(48000));
    assert_eq!(get_elapsed_samples(&engine), Some(0));
    assert_eq!(get_current_step(&engine), Some(0));
    assert_eq!(get_is_paused(&engine), Some(false));

    update_playback_state(&Some(counters), 88200, 3, true);
    assert_eq!(get_elapsed_samples(&engine), Some(88200));
    assert_eq!(get_current_step(&engine), Some(3));
    assert_eq!(get_is_paused(&engine), Some(true));
}

#[test]
fn update_without_counters_is_a_no_op() {
    update_playback_state(&None, 1, 1, true);
    let counters = PlaybackState::new();
    let watch = PlaybackState {
        elapsed_samples: counters.elapsed_samples.clone(),
        current_step: counters.current_step.clone(),
        is_paused: counters.is_paused.clone(),
    };
    assert_eq!(watch.elapsed_samples.load(Ordering::Relaxed), 0);
    assert_eq!(watch.current_step.load(Ordering::Relaxed), 0);
    assert!(!watch.is_paused.load(Ordering::Relaxed));
    update_playback_state(&Some(counters), 5, 2, true);
    assert_eq!(watch.elapsed_samples.load(Ordering::Relaxed), 5);
    assert_eq!(watch.current_step.load(Ordering::Relaxed), 2);
    assert!(watch.is_paused.load(Ordering::Relaxed));
}

#[test]
fn commands_arrive_in_submission_order() {
    let (state, mut rx, _stop_rx, _counters) = EngineState::open(44100);
    let mut engine = Some(state);
    pause_audio(&mut engine);
    enable_gpu(&mut engine, true);
    resume_audio(&mut engine);
    assert!(matches!(rx.cons.try_pop(), Some(Command::SetPaused(true))));
    assert!(matches!(rx.cons.try_pop(), Some(Command::EnableGpu(true))));
    assert!(matches!(rx.cons.try_pop(), Some(Command::SetPaused(false))));
    assert!(rx.cons.try_pop().is_none());
}

#[test]
fn full_queue_drops_commands() {
    let (mut state, mut rx, _stop_rx, _counters) = EngineState::open(44100);
    let mut accepted = 0usize;
    for _ in 0..1100 {
        if state.submit(Command::SetNoiseGain(0.5f32.to_bits())) {
            accepted += 1;
        }
    }
    assert_eq!(accepted, 1024);
    let mut popped = 0usize;
    while let Some(cmd) = rx.cons.try_pop() {
        assert!(matches!(cmd, Command::SetNoiseGain(bits) if f32::from_bits(bits) == 0.5));
        popped += 1;
    }
    assert_eq!(popped, 1024);
}

#[test]
fn stop_signals_and_ends_session() {
    let (state, _rx, stop_rx, _counters) = EngineState::open(44100);
    let mut engine = Some(state);
    assert!(stop_audio_session(&mut engine));
    assert!(engine.is_none());
    assert!(!is_audio_playing(&engine));
    assert_eq!(get_sample_rate(&engine), None);
    assert!(stop_rx.try_recv().is_ok());
    assert!(stop_rx.try_recv().is_err());
    assert!(!stop_audio_session(&mut engine));
    assert!(stop_rx.try_recv().is_err());
}

#[test]
fn stop_stream_never_blocks() {
    let (mut tx, rx) = crossbeam::channel::bounded::<()>(0);
    assert!(!stop_audio_stream(&mut tx));
    let (mut tx, rx1) = crossbeam::channel::bounded::<()>(1);
    assert!(stop_audio_stream(&mut tx));
    assert!(!stop_audio_stream(&mut tx));
    assert!(rx1.try_recv().is_ok());
    drop(rx);
}
