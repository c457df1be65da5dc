//! The playground's state between frames: the clock, the editor, whether an
//! edit waits to be compiled, the frame clock and the surface's size.

use vstd::prelude::*;
use crate::editor::{Editor, EditorView, debounce_due, message_text};
use crate::frames::{FrameClock, FrameClockView, FrameTiming, clock_started, ticked, timing_at};
use crate::surface::{RenderError, RenderRecovery, SurfaceSize, SurfaceView, initial_surface, recovery_for, resized, surface_after_error};
use crate::time::{Clock, elapsed_ns};

verus! {

/// How long typing must pause before the shader is compiled, in
/// milliseconds.
pub const DEBOUNCE_MS: u64 = 300;

/// What the playground's state holds.
pub struct AppStateView {
    pub clock: Clock,
    pub editor: EditorView,
    pub pending: bool,
    pub frames: FrameClockView,
    pub surface: SurfaceView,
}

/// The state for a window of `width` by `height`, an editor holding
/// `source`, and the clock reading `now` taken at the start: the editor was
/// last edited then, and the frame clock starts then.
pub open spec fn initial_state(clock: Clock, source: Seq<char>, width: u32, height: u32, now: u128) -> AppStateView {
    AppStateView {
        clock,
        editor: EditorView { source, error: None, last_edit_ns: now },
        pending: false,
        frames: clock_started(now),
        surface: initial_surface(width, height),
    }
}

/// Whether a frame starting at the reading `now` compiles the source: an
/// edit is pending and `DEBOUNCE_MS` have passed since the last edit.
pub open spec fn compile_due(s: AppStateView, now: u128) -> bool {
    s.pending && debounce_due(s.editor.last_edit_ns, now, DEBOUNCE_MS)
}

/// The state after a frame starts at the reading `now`: the frame is
/// counted, and a compile, when due, clears the pending edit.
pub open spec fn frame_begun(s: AppStateView, now: u128) -> AppStateView {
    AppStateView { frames: ticked(s.frames, now), pending: s.pending && !compile_due(s, now), ..s }
}

/// The state after the source was changed to `source` at the reading `now`.
pub open spec fn edited(s: AppStateView, source: Seq<char>, now: u128) -> AppStateView {
    AppStateView { editor: EditorView { source, error: s.editor.error, last_edit_ns: now }, ..s }
}

/// The state after a frame in which the user interface ran; `changed` says
/// whether it changed the source, which then waits to be compiled.
pub open spec fn frame_ended(s: AppStateView, changed: bool) -> AppStateView {
    AppStateView { pending: s.pending || changed, ..s }
}

/// The state after a compile whose error is `error` (`None` when it
/// compiled).
pub open spec fn compiled(s: AppStateView, error: Option<Seq<char>>) -> AppStateView {
    AppStateView { editor: EditorView { error, ..s.editor }, ..s }
}

/// The state after the window was resized to `width` by `height`.
pub open spec fn state_resized(s: AppStateView, width: u32, height: u32) -> AppStateView {
    AppStateView { surface: resized(s.surface, width, height), ..s }
}

/// The state after the surface failed with `error`.
pub open spec fn state_recovered(s: AppStateView, error: RenderError) -> AppStateView {
    AppStateView { surface: surface_after_error(s.surface, error), ..s }
}

/// One operation on the state.
pub enum Step {
    Resize { width: u32, height: u32 },
    BeginFrame { now: u128 },
    Edit { source: Seq<char>, now: u128 },
    EndFrame { changed: bool },
    Compiled { error: Option<Seq<char>> },
    Recover { failure: RenderError },
}

/// The state after one operation.
pub open spec fn apply(s: AppStateView, step: Step) -> AppStateView {
    match step {
        Step::Resize { width, height } => state_resized(s, width, height),
        Step::BeginFrame { now } => frame_begun(s, now),
        Step::Edit { source, now } => edited(s, source, now),
        Step::EndFrame { changed } => frame_ended(s, changed),
        Step::Compiled { error } => compiled(s, error),
        Step::Recover { failure } => state_recovered(s, failure),
    }
}

/// The state after the operations `steps`, in order.
pub open spec fn run(s: AppStateView, steps: Seq<Step>) -> AppStateView
    decreases steps.len(),
{
    if steps.len() == 0 {
        s
    } else {
        run(apply(s, steps[0]), steps.drop_first())
    }
}

/// The error of the latest compile among `steps`, or `before` if none
/// compiled.
pub open spec fn latest_error(before: Option<Seq<char>>, steps: Seq<Step>) -> Option<Seq<char>>
    decreases steps.len(),
{
    if steps.len() == 0 {
        before
    } else {
        match steps.last() {
            Step::Compiled { error } => error,
            _ => latest_error(before, steps.drop_last()),
        }
    }
}

/// The error shown is the latest compile's: after any operations, the
/// editor shows the error of the last compile among them (none when it
/// compiled), or what it showed before if none compiled.
pub proof fn lemma_error_is_latest_compiles(s: AppStateView, steps: Seq<Step>)
    ensures
        run(s, steps).editor.error == latest_error(s.editor.error, steps),
    decreases steps.len(),
{
    if steps.len() > 0 {
        lemma_run_last(s, steps);
        lemma_error_is_latest_compiles(s, steps.drop_last());
    }
}

/// Running operations is running all but the last, then the last.
proof fn lemma_run_last(s: AppStateView, steps: Seq<Step>)
    requires
        steps.len() > 0,
    ensures
        run(s, steps) == apply(run(s, steps.drop_last()), steps.last()),
    decreases steps.len(),
{
    if steps.len() == 1 {
        assert(steps.drop_first().len() == 0);
        assert(steps.drop_last().len() == 0);
    } else {
        let rest = steps.drop_first();
        lemma_run_last(apply(s, steps[0]), rest);
        assert(rest.drop_last() == steps.drop_last().drop_first());
        assert(rest.last() == steps.last());
        assert(steps.drop_last()[0] == steps[0]);
    }
}

/// The compile is debounced: a frame compiles only when an edit is pending
/// and `DEBOUNCE_MS` have passed since the last edit, so never within that
/// time of an edit; the first frame after that time compiles, and only once;
/// before any edit nothing compiles.
pub proof fn lemma_debounced_compile(s: AppStateView, source: Seq<char>, t_edit: u128, now: u128, later: u128)
    ensures
        compile_due(s, now) ==> s.pending && elapsed_ns(s.editor.last_edit_ns, now) >= DEBOUNCE_MS * 1_000_000,
        elapsed_ns(s.editor.last_edit_ns, now) < DEBOUNCE_MS * 1_000_000 ==> !compile_due(s, now),
        !s.pending ==> !compile_due(s, now),
        ({
            let e = frame_ended(edited(s, source, t_edit), true);
            &&& (elapsed_ns(t_edit, now) >= DEBOUNCE_MS * 1_000_000 ==> compile_due(e, now))
            &&& (elapsed_ns(t_edit, now) < DEBOUNCE_MS * 1_000_000 ==> !compile_due(e, now) && frame_begun(e, now).pending)
        }),
        compile_due(s, now) ==> !frame_begun(s, now).pending && !compile_due(frame_begun(s, now), later),
        !compile_due(s, now) ==> frame_begun(s, now).pending == s.pending,
{
}

/// A resize with a zero side leaves the whole state as it was.
pub proof fn lemma_zero_resize_keeps_state(s: AppStateView, width: u32, height: u32)
    requires
        width == 0 || height == 0,
    ensures
        state_resized(s, width, height) == s,
{
}

/// What the start of a frame decided: the clock reading it was taken at,
/// the clock's report, the resolution to draw at, and whether the editor's
/// source is to be compiled now.
pub struct FramePlan {
    pub now_ns: u128,
    pub timing: FrameTiming,
    pub width: u32,
    pub height: u32,
    pub compile: bool,
}

/// The playground's state.
pub struct AppState {
    clock: Clock,
    editor: Editor,
    pending_compile: bool,
    frames: FrameClock,
    surface: SurfaceSize,
}

impl View for AppState {
    type V = AppStateView;

    closed spec fn view(&self) -> AppStateView {
        AppStateView {
            clock: self.clock,
            editor: self.editor@,
            pending: self.pending_compile,
            frames: self.frames@,
            surface: self.surface@,
        }
    }
}

impl AppState {
    /// The state for a window of `width` by `height` whose editor holds
    /// `default_source`: a clock started now, nothing pending, no frame
    /// counted, the editor last edited and the frame clock started at the
    /// clock's first reading.
    pub fn new(default_source: &str, width: u32, height: u32) -> (s: AppState)
        ensures
            s@ == initial_state(s@.clock, default_source@, width, height, s@.frames.start_ns),
            s@.surface.valid(),
    {
        let clock = Clock::start();
        let now = clock.now_ns();
        AppState {
            clock,
            editor: Editor::new(default_source, now),
            pending_compile: false,
            frames: FrameClock::new(now),
            surface: SurfaceSize::new(width, height),
        }
    }

    /// The editor.
    pub fn editor(&self) -> (e: &Editor)
        ensures
            e@ == self@.editor,
    {
        &self.editor
    }

    /// The window's and the surface's size.
    pub fn surface(&self) -> (s: &SurfaceSize)
        ensures
            s@ == self@.surface,
    {
        &self.surface
    }

    /// The frames counted in the frame clock's open window.
    pub fn frames_in_window(&self) -> (n: u32)
        ensures
            n == self@.frames.frames,
    {
        self.frames.frames_in_window()
    }

    /// Whether an edit waits to be compiled.
    pub fn pending_compile(&self) -> (p: bool)
        ensures
            p == self@.pending,
    {
        self.pending_compile
    }

    /// The window was resized; returns whether the surface is to be
    /// configured again.
    pub fn resize(&mut self, width: u32, height: u32) -> (reconfigure: bool)
        ensures
            final(self)@ == state_resized(old(self)@, width, height),
            reconfigure == (width > 0 && height > 0),
    {
        self.surface.resize(width, height)
    }

    /// Starts a frame at the clock reading `now_ns`: counts it on the frame
    /// clock, and compiles a pending edit when `DEBOUNCE_MS` have passed
    /// since the last edit, which clears the pending edit.
    pub fn begin_frame_at(&mut self, now_ns: u128) -> (plan: FramePlan)
        requires
            old(self)@.frames.frames < u32::MAX,
        ensures
            final(self)@ == frame_begun(old(self)@, now_ns),
            plan == (FramePlan {
                now_ns,
                timing: timing_at(old(self)@.frames, now_ns),
                width: old(self)@.surface.width,
                height: old(self)@.surface.height,
                compile: compile_due(old(self)@, now_ns),
            }),
    {
        let timing = self.frames.tick(now_ns);
        let width = self.surface.width();
        let height = self.surface.height();
        let compile = self.pending_compile && self.editor.needs_recompile(now_ns, DEBOUNCE_MS);
        if compile {
            self.pending_compile = false;
        }
        FramePlan { now_ns, timing, width, height, compile }
    }

    /// Starts a frame now: reads the clock once and starts the frame at that
    /// reading, which the plan carries.
    pub fn begin_frame(&mut self) -> (plan: FramePlan)
        requires
            old(self)@.frames.frames < u32::MAX,
        ensures
            final(self)@ == frame_begun(old(self)@, plan.now_ns),
            plan == (FramePlan {
                now_ns: plan.now_ns,
                timing: timing_at(old(self)@.frames, plan.now_ns),
                width: old(self)@.surface.width,
                height: old(self)@.surface.height,
                compile: compile_due(old(self)@, plan.now_ns),
            }),
    {
        let now = self.clock.now_ns();
        self.begin_frame_at(now)
    }

    /// The source was changed to `new_source` at the clock reading `now_ns`.
    pub fn record_edit_at(&mut self, new_source: String, now_ns: u128)
        ensures
            final(self)@ == edited(old(self)@, new_source@, now_ns),
    {
        self.editor.record_edit(new_source, now_ns);
    }

    /// The source was changed to `new_source` now: reads the clock once and
    /// records the edit at that reading, which it returns.
    pub fn record_edit(&mut self, new_source: String) -> (edited_at: u128)
        ensures
            final(self)@ == edited(old(self)@, new_source@, edited_at),
    {
        let now = self.clock.now_ns();
        self.record_edit_at(new_source, now);
        now
    }

    /// Ends a frame in which the user interface ran; `changed` says whether
    /// it changed the source, which then waits to be compiled.
    pub fn end_frame(&mut self, changed: bool)
        ensures
            final(self)@ == frame_ended(old(self)@, changed),
    {
        if changed {
            self.pending_compile = true;
        }
    }

    /// Takes the outcome of compiling the editor's source; returns whether
    /// the new shader is to replace the one in use.
    pub fn finish_compile(&mut self, error: Option<String>) -> (use_new: bool)
        ensures
            use_new == (error is None),
            final(self)@ == compiled(old(self)@, message_text(error)),
    {
        self.editor.record_compile_result(error)
    }

    /// Whether the frame is to be drawn: always, since the surface always
    /// has pixels.
    pub fn should_render(&self) -> (render: bool)
        ensures
            render,
    {
        self.surface.should_render()
    }

    /// Handles the surface's failure to hand out a frame.
    pub fn recover(&mut self, error: RenderError) -> (r: RenderRecovery)
        ensures
            r == recovery_for(old(self)@.surface, error),
            final(self)@ == state_recovered(old(self)@, error),
    {
        self.surface.recover(error)
    }
}

/// Recording an edit puts exactly the new source in the editor, at the
/// edit's reading, and keeps the shown error and everything else.
pub proof fn lemma_edit_replaces_source(s: AppStateView, source: Seq<char>, now: u128)
    ensures
        edited(s, source, now).editor.source == source,
        edited(s, source, now).editor.last_edit_ns == now,
        edited(s, source, now).editor.error == s.editor.error,
        edited(s, source, now).pending == s.pending,
        edited(s, source, now).frames == s.frames,
        edited(s, source, now).surface == s.surface,
        edited(s, source, now).clock == s.clock,
{
}

/// What the other operations change, field by field: a compile shows exactly
/// its error and keeps the source; ending a frame makes an edit pending
/// exactly when the user interface changed the source, or one was pending;
/// a frame compiles exactly when an edit is pending and at least
/// `DEBOUNCE_MS` milliseconds lie between the last edit and the frame, and
/// then no edit is pending; a resize and a recovery touch only the surface.
pub proof fn lemma_state_steps(s: AppStateView, error: Option<Seq<char>>, changed: bool, now: u128, width: u32, height: u32, failure: RenderError)
    ensures
        compiled(s, error).editor.error == error,
        compiled(s, error).editor.source == s.editor.source,
        compiled(s, error).editor.last_edit_ns == s.editor.last_edit_ns,
        compiled(s, error).pending == s.pending,
        frame_ended(s, changed).pending == (s.pending || changed),
        frame_ended(s, changed).editor == s.editor,
        now >= s.editor.last_edit_ns ==>
            (compile_due(s, now) <==> s.pending && now - s.editor.last_edit_ns >= 300_000_000),
        now < s.editor.last_edit_ns ==> !compile_due(s, now),
        frame_begun(s, now).pending == (s.pending && !compile_due(s, now)),
        frame_begun(s, now).editor == s.editor,
        frame_begun(s, now).surface == s.surface,
        state_resized(s, width, height).editor == s.editor,
        state_resized(s, width, height).pending == s.pending,
        state_resized(s, width, height).frames == s.frames,
        state_recovered(s, failure).editor == s.editor,
        state_recovered(s, failure).pending == s.pending,
        state_recovered(s, failure).frames == s.frames,
{
}

/// A new state holds the given source, shows no error, has no edit pending
/// and no frame counted, and its last edit, frame clock start and first
/// window are the same reading.
pub proof fn lemma_initial_state(clock: Clock, source: Seq<char>, width: u32, height: u32, now: u128)
    ensures
        initial_state(clock, source, width, height, now).editor.source == source,
        initial_state(clock, source, width, height, now).editor.error is None,
        initial_state(clock, source, width, height, now).editor.last_edit_ns == now,
        !initial_state(clock, source, width, height, now).pending,
        initial_state(clock, source, width, height, now).frames.frames == 0,
        initial_state(clock, source, width, height, now).frames.start_ns == now,
        initial_state(clock, source, width, height, now).frames.window_ns == now,
        initial_state(clock, source, width, height, now).clock == clock,
{
}

} // verus!
