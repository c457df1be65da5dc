use shader_playground::editor::Editor;
use shader_playground::events::{handle_event, LoopAction, LoopEvent};
use shader_playground::frames::{FpsSample, FrameClock, FrameCounter, FPS_WINDOW_NS};
use shader_playground::state::{AppState, DEBOUNCE_MS};
use shader_playground::surface::{choose_format, RenderError, RenderRecovery, SurfaceSize};
use shader_playground::time::{elapsed_between, Clock};

const MS: u128 = 1_000_000;

#[test]
fn elapsed_saturates_at_zero() {
    assert_eq!(elapsed_between(10, 25), 15);
    assert_eq!(elapsed_between(25, 10), 0);
    assert_eq!(elapsed_between(7, 7), 0);
}

#[test]
fn clock_readings_do_not_go_back() {
    let c = Clock::start();
    let a = c.now_ns();
    let b = c.now_ns();
    assert!(b >= a);
}

#[test]
fn constants() {
    assert_eq!(DEBOUNCE_MS, 300);
    assert_eq!(FPS_WINDOW_NS, 1_000_000_000);
}

#[test]
fn frame_counter_samples_when_window_closes() {
    let mut c = FrameCounter::new();
    assert_eq!(c.frames, 0);
    assert_eq!(c.record_frame(false), None);
    assert_eq!(c.record_frame(false), None);
    assert_eq!(c.frames, 2);
    assert_eq!(c.record_frame(true), Some(3));
    assert_eq!(c.frames, 0);
    assert_eq!(c.record_frame(true), Some(1));
    assert_eq!(c.frames, 0);
}

#[test]
fn frame_counter_conserves_frames() {
    let mut c = FrameCounter::new();
    let pattern = [false, false, true, false, true, true, false];
    let mut sampled: u32 = 0;
    for (i, closed) in pattern.iter().enumerate() {
        if let Some(n) = c.record_frame(*closed) {
            sampled += n;
        }
        assert_eq!(sampled + c.frames, (i + 1) as u32);
    }
}

#[test]
fn frame_clock_samples_once_a_second() {
    let mut clock = FrameClock::new(5_000);
    assert_eq!(clock.frames_in_window(), 0);
    let t = clock.tick(5_000 + 400 * MS);
    assert_eq!(t.since_start_ns, 400 * MS);
    assert_eq!(t.fps, None);
    let t = clock.tick(5_000 + 999 * MS);
    assert_eq!(t.fps, None);
    assert_eq!(clock.frames_in_window(), 2);
    let t = clock.tick(5_000 + 1_200 * MS);
    assert_eq!(t.since_start_ns, 1_200 * MS);
    assert_eq!(t.fps, Some(FpsSample { frames: 3, window_ns: 1_200 * MS }));
    assert_eq!(clock.frames_in_window(), 0);
    // The new window opened at the sampling frame.
    let t = clock.tick(5_000 + 2_100 * MS);
    assert_eq!(t.fps, None);
    let t = clock.tick(5_000 + 2_200 * MS);
    assert_eq!(t.since_start_ns, 2_200 * MS);
    assert_eq!(t.fps, Some(FpsSample { frames: 2, window_ns: 1_000 * MS }));
}

#[test]
fn frame_clock_earlier_reading_counts_as_no_time() {
    let mut clock = FrameClock::new(1_000);
    let t = clock.tick(10);
    assert_eq!(t.since_start_ns, 0);
    assert_eq!(t.fps, None);
}

#[test]
fn editor_starts_with_default_source() {
    let e = Editor::new("fn main() {}", 0);
    assert_eq!(e.source(), "fn main() {}");
    assert_eq!(*e.error_message(), None);
    assert!(!e.has_error());
}

#[test]
fn editor_debounce() {
    let mut e = Editor::new("x", 0);
    assert!(e.needs_recompile(0, 0));
    e.record_edit("y".to_string(), 1_000 * MS);
    assert_eq!(e.source(), "y");
    assert!(!e.needs_recompile(1_000 * MS + 299 * MS, 300));
    assert!(e.needs_recompile(1_000 * MS + 300 * MS, 300));
    assert!(!e.needs_recompile(10, 300));
}

#[test]
fn editor_keeps_error_until_next_compile() {
    let mut e = Editor::new("bad", 0);
    assert!(!e.record_compile_result(Some("error: expected ';'".to_string())));
    assert_eq!(e.error_message().as_deref(), Some("error: expected ';'"));
    assert!(e.has_error());
    e.record_edit("good".to_string(), 5);
    assert!(e.has_error());
    assert!(e.record_compile_result(None));
    assert_eq!(*e.error_message(), None);
    assert_eq!(e.source(), "good");
}

#[test]
fn surface_starts_at_least_one_pixel() {
    let s = SurfaceSize::new(0, 0);
    assert_eq!((s.width(), s.height()), (1, 1));
    assert_eq!((s.window_width(), s.window_height()), (0, 0));
    assert!(s.should_render());
    let t = SurfaceSize::new(800, 600);
    assert_eq!((t.width(), t.height()), (800, 600));
}

#[test]
fn surface_ignores_zero_resize() {
    let mut s = SurfaceSize::new(800, 600);
    assert!(!s.resize(0, 300));
    assert!(!s.resize(300, 0));
    assert_eq!((s.width(), s.height()), (800, 600));
    assert!(s.resize(1024, 768));
    assert_eq!((s.width(), s.height()), (1024, 768));
    assert_eq!((s.window_width(), s.window_height()), (1024, 768));
    assert!(s.resize(1024, 768));
    assert_eq!((s.width(), s.height()), (1024, 768));
}

#[test]
fn surface_recovers_from_each_error() {
    let mut s = SurfaceSize::new(640, 480);
    assert_eq!(s.recover(RenderError::Lost), RenderRecovery::Reconfigure);
    assert_eq!((s.width(), s.height()), (640, 480));
    assert_eq!(s.recover(RenderError::Outdated), RenderRecovery::Nothing);
    assert_eq!(s.recover(RenderError::Timeout), RenderRecovery::Report);
    assert_eq!(s.recover(RenderError::OutOfMemory), RenderRecovery::Report);
    assert_eq!(s.recover(RenderError::Other), RenderRecovery::Report);
    let mut z = SurfaceSize::new(0, 480);
    assert_eq!(z.recover(RenderError::Lost), RenderRecovery::Nothing);
    assert_eq!((z.width(), z.height()), (1, 480));
}

#[test]
fn format_prefers_first_srgb() {
    assert_eq!(choose_format(&vec![false, true, true]), 1);
    assert_eq!(choose_format(&vec![true, false]), 0);
    assert_eq!(choose_format(&vec![false, false, false]), 0);
    assert_eq!(choose_format(&vec![false]), 0);
}

#[test]
fn desktop_events() {
    assert_eq!(handle_event(false, true, false, LoopEvent::CloseRequested), LoopAction::Exit);
    assert_eq!(
        handle_event(false, true, false, LoopEvent::Resized { width: 3, height: 4 }),
        LoopAction::Resize { width: 3, height: 4 }
    );
    assert_eq!(handle_event(false, true, false, LoopEvent::RedrawRequested), LoopAction::Redraw);
    assert_eq!(handle_event(false, true, false, LoopEvent::AboutToWait), LoopAction::RequestRedraw);
    assert_eq!(handle_event(false, true, false, LoopEvent::OtherWindowEvent), LoopAction::Nothing);
    assert_eq!(handle_event(false, true, false, LoopEvent::Other), LoopAction::Nothing);
    assert_eq!(handle_event(false, true, false, LoopEvent::Resumed), LoopAction::Nothing);
    assert_eq!(handle_event(false, true, false, LoopEvent::Suspended), LoopAction::Nothing);
}

#[test]
fn consumed_window_events_stop() {
    assert_eq!(handle_event(false, true, true, LoopEvent::CloseRequested), LoopAction::Nothing);
    assert_eq!(handle_event(false, true, true, LoopEvent::RedrawRequested), LoopAction::Nothing);
    assert_eq!(
        handle_event(false, true, true, LoopEvent::Resized { width: 3, height: 4 }),
        LoopAction::Nothing
    );
    assert_eq!(handle_event(false, true, true, LoopEvent::AboutToWait), LoopAction::RequestRedraw);
}

#[test]
fn lifecycle_events() {
    assert_eq!(handle_event(true, false, false, LoopEvent::Resumed), LoopAction::CreateApp);
    assert_eq!(handle_event(true, true, false, LoopEvent::Resumed), LoopAction::Nothing);
    assert_eq!(handle_event(true, true, false, LoopEvent::Suspended), LoopAction::DropApp);
    assert_eq!(handle_event(true, false, false, LoopEvent::Suspended), LoopAction::DropApp);
    assert_eq!(handle_event(true, false, false, LoopEvent::RedrawRequested), LoopAction::Nothing);
    assert_eq!(handle_event(true, true, false, LoopEvent::RedrawRequested), LoopAction::Redraw);
}

#[test]
fn state_starts_idle() {
    let s = AppState::new("src", 0, 720);
    assert_eq!(s.editor().source(), "src");
    assert!(!s.pending_compile());
    assert_eq!(s.frames_in_window(), 0);
    assert_eq!((s.surface().width(), s.surface().height()), (1, 720));
    assert!(s.should_render());
}

#[test]
fn edit_waits_for_the_pause_then_compiles_once() {
    let mut s = AppState::new("a", 800, 600);
    let base = s.record_edit("a".to_string()) + 10 * MS;
    s.end_frame(false);
    // No edit pending: nothing compiles, however long ago the last edit was.
    let plan = s.begin_frame_at(base + 10_000 * MS);
    assert!(!plan.compile);
    assert_eq!((plan.width, plan.height), (800, 600));
    s.record_edit_at("b".to_string(), base + 10_000 * MS);
    s.end_frame(true);
    assert!(s.pending_compile());
    let plan = s.begin_frame_at(base + 10_299 * MS);
    assert!(!plan.compile);
    assert!(s.pending_compile());
    s.end_frame(false);
    let plan = s.begin_frame_at(base + 10_300 * MS);
    assert!(plan.compile);
    assert!(!s.pending_compile());
    assert!(s.finish_compile(None));
    s.end_frame(false);
    let plan = s.begin_frame_at(base + 20_000 * MS);
    assert!(!plan.compile);
}

#[test]
fn begin_frame_reads_the_clock() {
    let mut s = AppState::new("a", 800, 600);
    let plan = s.begin_frame();
    assert!(!plan.compile);
    assert_eq!(plan.timing.since_start_ns, elapsed_between(0, plan.timing.since_start_ns));
    assert_eq!(s.frames_in_window() == 1, plan.timing.fps.is_none());
}

#[test]
fn failed_compile_keeps_old_shader() {
    let mut s = AppState::new("a", 800, 600);
    assert!(!s.finish_compile(Some("boom".to_string())));
    assert_eq!(s.editor().error_message().as_deref(), Some("boom"));
    assert_eq!(s.editor().source(), "a");
}

#[test]
fn state_resize_and_recover() {
    let mut s = AppState::new("a", 800, 600);
    assert!(s.resize(400, 300));
    assert_eq!((s.surface().width(), s.surface().height()), (400, 300));
    assert!(!s.resize(0, 0));
    assert_eq!((s.surface().width(), s.surface().height()), (400, 300));
    assert_eq!(s.recover(RenderError::Lost), RenderRecovery::Reconfigure);
    assert_eq!(s.recover(RenderError::Outdated), RenderRecovery::Nothing);
    assert_eq!(s.recover(RenderError::Timeout), RenderRecovery::Report);
}
