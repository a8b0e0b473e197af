use std::sync::Arc;
use c64_display::frame_loop::{FrameLoop, LoopAction, LoopEvent, Phase};
use c64_display::sound::{AudioEngine, AudioRenderer, SoundBuffer};

fn to_input(l: &mut FrameLoop) {
    assert_eq!(l.step(LoopEvent::FrameDone { faulted: false, pc: 0 }), LoopAction::Render);
    assert_eq!(l.step(LoopEvent::Rendered), LoopAction::ResetVsync);
}

#[test]
fn fault_aborts_before_render() {
    let mut l = FrameLoop::new();
    assert_eq!(l.step(LoopEvent::FrameDone { faulted: true, pc: 0xfce2 }), LoopAction::Abort { pc: 0xfce2 });
    assert_eq!(l.phase, Phase::Faulted);
    assert!(!l.accepts(LoopEvent::Rendered));
    assert!(!l.accepts(LoopEvent::FrameDone { faulted: false, pc: 0 }));
}

#[test]
fn iteration_runs_in_order() {
    let mut l = FrameLoop::new();
    assert!(l.accepts(LoopEvent::FrameDone { faulted: false, pc: 0 }));
    assert!(!l.accepts(LoopEvent::Rendered));
    to_input(&mut l);
    assert_eq!(l.step(LoopEvent::VsyncReset { has_events: false, cycles: 5 }), LoopAction::Wait);
    assert_eq!(l.step(LoopEvent::Vblank), LoopAction::RunFrame);
    assert_eq!(l.phase, Phase::Producing);
}

#[test]
fn input_drain_is_throttled() {
    let mut l = FrameLoop::new();
    to_input(&mut l);
    assert_eq!(l.step(LoopEvent::VsyncReset { has_events: true, cycles: 100 }), LoopAction::DrainThenWait);
    assert_eq!(l.next_keyboard_event, 20100);
    l.step(LoopEvent::Vblank);
    to_input(&mut l);
    assert_eq!(l.step(LoopEvent::VsyncReset { has_events: true, cycles: 20099 }), LoopAction::Wait);
    l.step(LoopEvent::Vblank);
    to_input(&mut l);
    assert_eq!(l.step(LoopEvent::VsyncReset { has_events: true, cycles: 20100 }), LoopAction::DrainThenWait);
    assert_eq!(l.next_keyboard_event, 40100);
}

#[test]
fn drain_deadline_does_not_wrap_near_counter_limit() {
    let mut l = FrameLoop::new();
    to_input(&mut l);
    assert_eq!(l.step(LoopEvent::VsyncReset { has_events: true, cycles: u64::MAX - 5 }), LoopAction::DrainThenWait);
    assert_eq!(l.next_keyboard_event, u64::MAX as u128 - 5 + 20000);
    l.step(LoopEvent::Vblank);
    to_input(&mut l);
    assert_eq!(l.step(LoopEvent::VsyncReset { has_events: true, cycles: u64::MAX }), LoopAction::Wait);
}

#[test]
fn audio_mute_and_write() {
    let mut r = AudioRenderer::new(Arc::new(SoundBuffer::new(4096)));
    assert!(!r.is_mute());
    let mut out = vec![7u32, 8, 9];
    r.write(&mut out);
    assert_eq!(out, vec![7, 8, 9]);
    r.toggle_mute();
    assert!(r.is_mute());
    r.set_volume(50);
    r.write(&mut out);
    assert_eq!(out, vec![0, 0, 0]);
    r.toggle_mute();
    assert!(!r.is_mute());
}

#[test]
fn audio_engine_builds() {
    let e = AudioEngine::build(44100, 512, Arc::new(SoundBuffer::new(4096))).unwrap();
    assert!(!e.renderer().is_mute());
    e.make_irq_handler();
    e.start();
}
