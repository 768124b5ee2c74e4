use realtime_backend::delivery::{
    callback_plan, next_chunk, ring_watermarks, samples_for_millis, worker_action, WorkerAction,
    WORKER_BLOCK_FRAMES,
};

#[test]
fn samples_for_whole_and_fractional_frames() {
    assert_eq!(samples_for_millis(44100, 500, 2), 44100);
    assert_eq!(samples_for_millis(44100, 2000, 2), 176400);
    assert_eq!(samples_for_millis(44101, 500, 2), 44102);
    assert_eq!(samples_for_millis(48000, 500, 1), 24000);
    assert_eq!(samples_for_millis(0, 500, 2), 0);
    assert_eq!(samples_for_millis(44100, 500, 0), 0);
    assert_eq!(samples_for_millis(u32::MAX, u32::MAX, usize::MAX), usize::MAX);
}

#[test]
fn watermarks_are_rate_independent_in_time() {
    assert_eq!(ring_watermarks(44100, 2), (44100, 176400));
    assert_eq!(ring_watermarks(48000, 2), (48000, 192000));
    assert_eq!(ring_watermarks(100, 2), (100, WORKER_BLOCK_FRAMES * 2));
}

#[test]
fn worker_fills_below_low_watermark() {
    assert!(matches!(worker_action(true, 0, 1000, 100, 500), WorkerAction::Stop));
    assert!(matches!(worker_action(false, 99, 1000, 100, 500), WorkerAction::Fill { target: 500 }));
    assert!(matches!(worker_action(false, 99, 400, 100, 500), WorkerAction::Fill { target: 400 }));
    assert!(matches!(worker_action(false, 100, 1000, 100, 500), WorkerAction::Sleep));
}

#[test]
fn chunks_are_whole_frames_under_target() {
    assert_eq!(next_chunk(0, 1000, 500, 1024, 2), 500);
    assert_eq!(next_chunk(0, 1000, 5000, 1024, 2), 1000);
    assert_eq!(next_chunk(0, 5000, 5000, 1024, 2), 1024);
    assert_eq!(next_chunk(0, 1001, 5000, 2048, 2), 1000);
    assert_eq!(next_chunk(499, 1000, 500, 1024, 2), 0);
    assert_eq!(next_chunk(500, 1000, 500, 1024, 2), 0);
    assert_eq!(next_chunk(0, 0, 500, 1024, 2), 0);
}

#[test]
fn fill_cycle_reaches_target() {
    let capacity = 176400usize;
    let (low, high) = ring_watermarks(44100, 2);
    let mut occupied = 1000usize;
    let target = match worker_action(false, occupied, capacity, low, high) {
        WorkerAction::Fill { target } => target,
        _ => panic!("expected a fill"),
    };
    loop {
        let vacant = capacity - occupied;
        let n = next_chunk(occupied, vacant, target, WORKER_BLOCK_FRAMES * 2, 2);
        if n == 0 {
            break;
        }
        occupied += n;
        assert_eq!(occupied + (capacity - occupied), capacity);
    }
    assert_eq!(occupied, target);
}

#[test]
fn ring_levels_add_up_over_pushes_and_pops() {
    let capacity = 64usize;
    let mut occupied = 0usize;
    let ops: [(bool, usize); 6] = [(true, 10), (true, 54), (false, 20), (true, 5), (false, 49), (true, 64)];
    for (push, n) in ops {
        let vacant = capacity - occupied;
        if push {
            assert!(n <= vacant);
            occupied += n;
        } else {
            assert!(n <= occupied);
            occupied -= n;
        }
        assert_eq!(occupied + (capacity - occupied), capacity);
    }
    assert_eq!(occupied, 64);
}

#[test]
fn callback_holds_last_sample_on_shortfall() {
    let p = callback_plan(false, 10, 512);
    assert!(!p.fade_in);
    assert_eq!(p.hold_from, 10);
    assert!(p.update_last);
    assert!(p.starved);
    let p = callback_plan(false, 512, 512);
    assert!(!p.fade_in);
    assert!(!p.starved);
    assert_eq!(p.hold_from, 512);
    let p = callback_plan(false, 0, 512);
    assert!(!p.fade_in);
    assert!(!p.update_last);
    assert!(p.starved);
    assert_eq!(p.hold_from, 0);
}

#[test]
fn callback_fades_in_only_when_resuming() {
    let p = callback_plan(true, 0, 512);
    assert!(!p.fade_in);
    assert!(p.starved);
    let p = callback_plan(true, 100, 512);
    assert!(p.fade_in);
    assert!(p.starved);
    let p = callback_plan(true, 512, 512);
    assert!(p.fade_in);
    assert!(!p.starved);
    let p = callback_plan(false, 512, 512);
    assert!(!p.fade_in);
}

#[test]
fn fill_with_concurrent_pops_stays_under_target() {
    let (low, high) = ring_watermarks(44100, 2);
    let capacity = high;
    let mut occupied = low - 2;
    let target = match worker_action(false, occupied, capacity, low, high) {
        WorkerAction::Fill { target } => target,
        _ => panic!("expected a fill"),
    };
    let mut produced_any = false;
    for step in 0..2000usize {
        if step % 3 == 2 {
            let pop = (step * 37) % 1500;
            occupied -= pop.min(occupied);
        } else {
            let vacant = capacity - occupied;
            let n = next_chunk(occupied, vacant, target, WORKER_BLOCK_FRAMES * 2, 2);
            assert!(n <= vacant);
            assert_eq!(n % 2, 0);
            produced_any |= n > 0;
            occupied += n;
        }
        assert!(occupied <= target);
        assert_eq!(occupied + (capacity - occupied), capacity);
    }
    assert!(produced_any);
}
