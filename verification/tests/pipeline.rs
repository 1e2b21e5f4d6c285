use midnight2_core::pipeline::{
    plan_initialization, FramePipeline, InitError, InitPlan, SlotPhase, SurfaceCaps,
    TeardownAction, MAX_FRAMES_IN_FLIGHT,
};

/// Drive one whole renderFrame, reclaiming lazily as the pipeline asks;
/// returns (slot used, whether a reclaim happened, fence target waited on).
fn drive_frame(p: &mut FramePipeline, view: u64, cmd_buf: u64) -> (usize, bool, u64) {
    let reclaimed = p.needs_reclaim();
    let target = p.reclaim_fence_target();
    if reclaimed {
        // The GPU is simulated as always done: the fence is observed at
        // exactly the slot's expected value.
        let (_views, _bufs) = p.reclaim_current(target);
    }
    let slot = p.begin_recording();
    let _fence_value = p.submit_recorded(view, cmd_buf);
    (slot, reclaimed, target)
}

#[test]
fn slot_sequence_over_seven_frames() {
    let mut p = FramePipeline::new(MAX_FRAMES_IN_FLIGHT as usize);
    let mut slots = Vec::new();
    let mut reclaims = Vec::new();
    let mut targets = Vec::new();
    for k in 0..7u64 {
        let (slot, reclaimed, target) = drive_frame(&mut p, 100 + k, 200 + k);
        slots.push(slot);
        reclaims.push(reclaimed);
        targets.push(target);
    }
    assert_eq!(slots, vec![0, 1, 2, 0, 1, 2, 0]);
    // The first three frames hit fresh slots; every later frame reuses one
    // and must drain it first.
    assert_eq!(reclaims, vec![false, false, false, true, true, true, true]);
    // Frame 4 (index 3) reuses slot 0 and blocks on the fence value that
    // frame 1 submitted there.
    assert_eq!(targets[3], 1);
}

#[test]
fn reclaim_hands_back_retired_resources() {
    let mut p = FramePipeline::new(3);
    let slot = p.begin_recording();
    assert_eq!(slot, 0);
    let fence_value = p.submit_recorded(41, 42);
    assert_eq!(fence_value, 1);
    assert_eq!(p.slot_frames_recorded(0), 1);
    assert_eq!(p.slot_phase(0), SlotPhase::Submitted);
    // Walk the cursor back around to slot 0.
    for k in 0..2u64 {
        let _ = p.begin_recording();
        let _ = p.submit_recorded(51 + k, 52 + k);
    }
    assert_eq!(p.current_slot(), 0);
    assert!(p.needs_reclaim());
    let target = p.reclaim_fence_target();
    assert_eq!(target, 1);
    let (views, bufs) = p.reclaim_current(target);
    assert_eq!(views, vec![41]);
    assert_eq!(bufs, vec![42]);
    assert_eq!(p.slot_frames_recorded(0), 0);
    assert_eq!(p.slot_reclaims(0), 1);
    assert_eq!(p.slot_phase(0), SlotPhase::Ready);
}

#[test]
fn fresh_slots_need_no_reclaim() {
    let p = FramePipeline::new(3);
    assert_eq!(p.ring_size(), 3);
    assert_eq!(p.current_slot(), 0);
    assert!(!p.needs_reclaim());
    assert_eq!(p.slot_reclaims(0), 0);
    assert!(p.is_running());
}

#[test]
fn shutdown_drains_every_slot_and_orders_teardown() {
    let mut p = FramePipeline::new(3);
    // Two frames in flight, slot 2 never used.
    let _ = drive(&mut p);
    let _ = drive(&mut p);
    let final_fence = p.begin_shutdown();
    assert!(!p.is_running());
    // After two frames the cursor stands at slot 2; begin_shutdown submits
    // the empty batch there, and its fence target is the returned value.
    assert_eq!(p.slot_fence_target(2), final_fence);
    let n = p.ring_size();
    for i in 0..n {
        if p.slot_phase(i) == SlotPhase::Submitted {
            let target = p.slot_fence_target(i);
            let (_views, _bufs) = p.drain_slot(i, target);
        }
        assert_eq!(p.slot_phase(i), SlotPhase::Ready);
        p.destroy_slot(i);
        assert_eq!(p.slot_phase(i), SlotPhase::Destroyed);
    }
    let actions = p.finish_teardown();
    assert_eq!(
        actions,
        vec![
            TeardownAction::UnconfigureSurface,
            TeardownAction::ReleaseDevice,
            TeardownAction::DestroySurface,
            TeardownAction::ReleaseAdapter,
        ]
    );
    assert!(!p.is_running());
}

fn drive(p: &mut FramePipeline) -> u64 {
    if p.needs_reclaim() {
        let target = p.reclaim_fence_target();
        let _ = p.reclaim_current(target);
    }
    let _ = p.begin_recording();
    p.submit_recorded(7, 8)
}

#[test]
fn plan_with_no_adapter_fails_terminally() {
    // Zero adapters: terminal error, no pipeline and no plan come out of
    // initialization, whatever the surface would have reported.
    assert_eq!(plan_initialization(0, None), Err(InitError::NoAdapter));
    let caps = SurfaceCaps { min_swap_chain_size: 1, max_swap_chain_size: 8 };
    assert_eq!(plan_initialization(0, Some(caps)), Err(InitError::NoAdapter));
}

#[test]
fn plan_without_surface_caps_fails() {
    assert_eq!(plan_initialization(1, None), Err(InitError::NoSurfaceCapabilities));
}

#[test]
fn plan_clamps_swap_chain_size() {
    let wide = SurfaceCaps { min_swap_chain_size: 1, max_swap_chain_size: 8 };
    assert_eq!(
        plan_initialization(2, Some(wide)),
        Ok(InitPlan { adapter_index: 0, swap_chain_size: 3 })
    );
    let low = SurfaceCaps { min_swap_chain_size: 1, max_swap_chain_size: 2 };
    assert_eq!(
        plan_initialization(1, Some(low)),
        Ok(InitPlan { adapter_index: 0, swap_chain_size: 2 })
    );
    let high = SurfaceCaps { min_swap_chain_size: 4, max_swap_chain_size: 8 };
    assert_eq!(
        plan_initialization(1, Some(high)),
        Ok(InitPlan { adapter_index: 0, swap_chain_size: 4 })
    );
}

#[test]
fn init_error_variants_are_distinct() {
    let all = [
        InitError::NoAdapter,
        InitError::NoSurfaceCapabilities,
        InitError::DeviceOpenFailed,
        InitError::SurfaceConfigureFailed,
    ];
    for (i, a) in all.iter().enumerate() {
        for b in all.iter().skip(i + 1) {
            assert_ne!(a, b);
        }
    }
}
