use realtime_backend::loudness::{BufferGain, GainUpdate, RenormPolicy, RmsLock, RENORM_WINDOW};

#[test]
fn window_completes_every_renorm_window() {
    let mut p = RenormPolicy::new(true);
    let mut completions = 0usize;
    for _ in 0..(RENORM_WINDOW * 3) {
        if p.note_sample() {
            completions += 1;
        }
    }
    assert_eq!(completions, 3);
    assert_eq!(p.window_fill, 0);
}

#[test]
fn locked_gain_is_set_once() {
    let mut p = RenormPolicy::new(true);
    assert!(matches!(p.decide(true, false), GainUpdate::Reset));
    assert!(p.initialized);
    for _ in 0..5 {
        assert!(matches!(p.decide(true, true), GainUpdate::Keep));
        assert!(matches!(p.decide(false, true), GainUpdate::Keep));
    }
}

#[test]
fn tracked_gain_follows_with_hysteresis() {
    let mut p = RenormPolicy::new(false);
    assert!(matches!(p.decide(true, false), GainUpdate::Keep));
    assert!(!p.initialized);
    assert!(matches!(p.decide(true, true), GainUpdate::Reset));
    assert!(matches!(p.decide(true, true), GainUpdate::Blend));
    assert!(matches!(p.decide(true, false), GainUpdate::Keep));
}

#[test]
fn unmeasurable_first_window_gives_unity() {
    let mut p = RenormPolicy::new(false);
    assert!(matches!(p.decide(false, true), GainUpdate::Unity));
    assert!(p.initialized);
    assert!(matches!(p.decide(false, true), GainUpdate::Keep));
}

#[test]
fn rms_lock_scales_every_buffer_after_first() {
    let mut l = RmsLock::new();
    assert!(matches!(l.decide(false, false), BufferGain::Leave));
    assert!(matches!(l.decide(true, true), BufferGain::NormalizeAndLock));
    for _ in 0..10 {
        assert!(matches!(l.decide(true, true), BufferGain::ScaleToTarget));
    }
    assert!(matches!(l.decide(false, true), BufferGain::Leave));
}

/// Buffers of varying level, each handled as the lock decides, all come
/// out at the RMS recorded from the first one.
#[test]
fn rms_lock_equalises_buffer_levels() {
    let mut l = RmsLock::new();
    let mut target: Option<f32> = None;
    for b in 0..6 {
        let scale = 0.1 + 0.05 * b as f32;
        let mut buf: Vec<f32> = (0..4096).map(|i| ((i as f32) * 0.21 + b as f32).sin() * scale).collect();
        let rms = (buf.iter().map(|x| x * x).sum::<f32>() / buf.len() as f32).sqrt();
        let peak = buf.iter().fold(0.0f32, |a, &v| a.max(v.abs()));
        match l.decide(rms > 1e-9, peak > 1e-9) {
            BufferGain::NormalizeAndLock => {
                for x in buf.iter_mut() {
                    *x /= peak;
                }
                let r = (buf.iter().map(|x| x * x).sum::<f32>() / buf.len() as f32).sqrt();
                target = Some(r);
            }
            BufferGain::ScaleToTarget => {
                let g = target.unwrap() / rms;
                for x in buf.iter_mut() {
                    *x = (*x * g).clamp(-1.0, 1.0);
                }
                let r = (buf.iter().map(|x| x * x).sum::<f32>() / buf.len() as f32).sqrt();
                assert!((r - target.unwrap()).abs() < 1e-3 * target.unwrap());
            }
            BufferGain::Leave => panic!("audible buffer left alone"),
        }
    }
    assert!(target.is_some());
}
