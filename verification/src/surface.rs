//! The size of the window and of the surface drawn into it, and what to do
//! when the surface cannot hand out a frame.

use vstd::prelude::*;

verus! {

/// The window's size as last reported, and the size the surface is
/// configured with.
pub struct SurfaceView {
    pub window_width: u32,
    pub window_height: u32,
    pub width: u32,
    pub height: u32,
}

impl SurfaceView {
    /// A surface can only be configured with a size of at least one pixel
    /// each way.
    pub open spec fn valid(self) -> bool {
        self.width >= 1 && self.height >= 1
    }
}

/// The size a surface starts with for a window of `width` by `height`: the
/// window's size, raised to one pixel where it is zero.
pub open spec fn initial_surface(width: u32, height: u32) -> SurfaceView {
    SurfaceView {
        window_width: width,
        window_height: height,
        width: if width >= 1 { width } else { 1 },
        height: if height >= 1 { height } else { 1 },
    }
}

/// A resize to `width` by `height` takes effect only when neither is zero.
pub open spec fn resized(s: SurfaceView, width: u32, height: u32) -> SurfaceView {
    if width > 0 && height > 0 {
        SurfaceView { window_width: width, window_height: height, width, height }
    } else {
        s
    }
}

/// A frame is drawn only into a surface with some pixels.
pub open spec fn render_allowed(s: SurfaceView) -> bool {
    !(s.width == 0 || s.height == 0)
}

/// Why the surface handed out no frame.
#[derive(PartialEq, Eq, Structural, Clone, Copy, Debug)]
pub enum RenderError {
    Timeout,
    Outdated,
    Lost,
    OutOfMemory,
    Other,
}

/// What was done about a frame the surface did not hand out.
#[derive(PartialEq, Eq, Structural, Clone, Copy, Debug)]
pub enum RenderRecovery {
    /// The surface is to be configured again with its size.
    Reconfigure,
    /// Nothing is to be done; the next frame will do.
    Nothing,
    /// The error is to be reported.
    Report,
}

/// The surface's size after `error`: a lost surface is resized to the
/// window's size, any other error leaves it as it was.
pub open spec fn surface_after_error(s: SurfaceView, error: RenderError) -> SurfaceView {
    if error == RenderError::Lost {
        resized(s, s.window_width, s.window_height)
    } else {
        s
    }
}

/// What is done about `error`: a lost surface is configured again when
/// the window has a size, an outdated one is left for the next frame, and
/// any other error is reported.
pub open spec fn recovery_for(s: SurfaceView, error: RenderError) -> RenderRecovery {
    match error {
        RenderError::Lost => if s.window_width > 0 && s.window_height > 0 {
            RenderRecovery::Reconfigure
        } else {
            RenderRecovery::Nothing
        },
        RenderError::Outdated => RenderRecovery::Nothing,
        _ => RenderRecovery::Report,
    }
}

/// The window's size and the surface's configured size.
pub struct SurfaceSize {
    window_width: u32,
    window_height: u32,
    width: u32,
    height: u32,
}

impl View for SurfaceSize {
    type V = SurfaceView;

    closed spec fn view(&self) -> SurfaceView {
        SurfaceView {
            window_width: self.window_width,
            window_height: self.window_height,
            width: self.width,
            height: self.height,
        }
    }
}

impl SurfaceSize {
    #[verifier::type_invariant]
    spec fn configurable(self) -> bool {
        self.width >= 1 && self.height >= 1
    }

    /// The sizes for a window of `width` by `height`.
    pub fn new(width: u32, height: u32) -> (s: SurfaceSize)
        ensures
            s@ == initial_surface(width, height),
            s@.valid(),
    {
        SurfaceSize {
            window_width: width,
            window_height: height,
            width: if width >= 1 { width } else { 1 },
            height: if height >= 1 { height } else { 1 },
        }
    }

    /// The window was resized to `width` by `height`. Returns whether the
    /// surface is to be configured with the new size: only when neither is
    /// zero, and otherwise nothing changes.
    pub fn resize(&mut self, width: u32, height: u32) -> (reconfigure: bool)
        ensures
            final(self)@ == resized(old(self)@, width, height),
            reconfigure == (width > 0 && height > 0),
            final(self)@.valid(),
    {
        proof { use_type_invariant(&*self); }
        if width > 0 && height > 0 {
            self.window_width = width;
            self.window_height = height;
            self.width = width;
            self.height = height;
            true
        } else {
            false
        }
    }

    /// Whether a frame is to be drawn: only into a surface with pixels,
    /// which this one always has.
    pub fn should_render(&self) -> (render: bool)
        ensures
            render == render_allowed(self@),
            render,
            self@.valid(),
    {
        proof { use_type_invariant(self); }
        !(self.width == 0 || self.height == 0)
    }

    /// Handles the surface's failure to hand out a frame.
    pub fn recover(&mut self, error: RenderError) -> (r: RenderRecovery)
        ensures
            r == recovery_for(old(self)@, error),
            final(self)@ == surface_after_error(old(self)@, error),
            final(self)@.valid(),
    {
        proof { use_type_invariant(&*self); }
        match error {
            RenderError::Lost => {
                let (w, h) = (self.window_width, self.window_height);
                if self.resize(w, h) {
                    RenderRecovery::Reconfigure
                } else {
                    RenderRecovery::Nothing
                }
            },
            RenderError::Outdated => RenderRecovery::Nothing,
            _ => RenderRecovery::Report,
        }
    }

    /// The surface's configured width.
    pub fn width(&self) -> (w: u32)
        ensures
            w == self@.width,
            w >= 1,
    {
        proof { use_type_invariant(self); }
        self.width
    }

    /// The surface's configured height.
    pub fn height(&self) -> (h: u32)
        ensures
            h == self@.height,
            h >= 1,
    {
        proof { use_type_invariant(self); }
        self.height
    }

    /// The window's width as last reported.
    pub fn window_width(&self) -> (w: u32)
        ensures
            w == self@.window_width,
    {
        self.window_width
    }

    /// The window's height as last reported.
    pub fn window_height(&self) -> (h: u32)
        ensures
            h == self@.window_height,
    {
        self.window_height
    }
}

/// A surface's size stays configurable: it starts so and every resize and
/// every recovery keeps it so.
pub proof fn lemma_surface_stays_valid(s: SurfaceView, width: u32, height: u32, error: RenderError)
    requires
        s.valid(),
    ensures
        initial_surface(width, height).valid(),
        resized(s, width, height).valid(),
        surface_after_error(s, error).valid(),
{
}

/// Every frame of a configurable surface is drawn.
pub proof fn lemma_valid_surface_renders(s: SurfaceView)
    requires
        s.valid(),
    ensures
        render_allowed(s),
{
}

/// A resize with a zero side changes nothing, and resizing twice to the
/// same size is resizing once.
pub proof fn lemma_resize_laws(s: SurfaceView, width: u32, height: u32)
    ensures
        (width == 0 || height == 0) ==> resized(s, width, height) == s,
        resized(resized(s, width, height), width, height) == resized(s, width, height),
{
}

/// After a resize that took effect, the surface has the window's size; a
/// lost surface is then configured again with that same size, and nothing
/// else changes.
pub proof fn lemma_lost_surface_keeps_size(s: SurfaceView, width: u32, height: u32)
    requires
        width > 0,
        height > 0,
    ensures
        surface_after_error(resized(s, width, height), RenderError::Lost) == resized(s, width, height),
        recovery_for(resized(s, width, height), RenderError::Lost) == RenderRecovery::Reconfigure,
{
}

/// Once the window has a size with no zero side, the surface has exactly
/// that size; the surface starts so, and every resize and recovery keeps it so.
pub open spec fn tracks_window(s: SurfaceView) -> bool {
    s.window_width > 0 && s.window_height > 0 ==> s.width == s.window_width && s.height == s.window_height
}

/// A surface always follows its window: whenever the window's size has no
/// zero side, the surface has that size.
pub proof fn lemma_surface_tracks_window(s: SurfaceView, width: u32, height: u32, error: RenderError)
    requires
        tracks_window(s),
    ensures
        tracks_window(initial_surface(width, height)),
        tracks_window(resized(s, width, height)),
        tracks_window(surface_after_error(s, error)),
{
}

/// The index of the format a surface is configured with, among formats of
/// which `srgb` says which are sRGB: the first sRGB one, or else the first.
pub open spec fn chosen_format(srgb: Seq<bool>) -> int
    decreases srgb.len(),
{
    if srgb.len() == 0 {
        0
    } else if srgb[0] {
        0
    } else if !srgb.drop_first().contains(true) {
        0
    } else {
        1 + chosen_format(srgb.drop_first())
    }
}

/// Picks the surface's format among the formats the surface supports, of
/// which `srgb` says which are sRGB: the first sRGB one, or else the first.
pub fn choose_format(srgb: &Vec<bool>) -> (i: usize)
    requires
        srgb.len() > 0,
    ensures
        i < srgb.len(),
        i == chosen_format(srgb@),
        srgb@.contains(true) ==> srgb@[i as int] && forall|k: int| 0 <= k < i ==> !srgb@[k],
        !srgb@.contains(true) ==> i == 0,
{
    let mut k: usize = 0;
    while k < srgb.len()
        invariant
            k <= srgb.len(),
            forall|j: int| 0 <= j < k ==> !srgb@[j],
        decreases srgb.len() - k,
    {
        if srgb[k] {
            proof { lemma_chosen_is_first(srgb@, k as int); }
            return k;
        }
        k = k + 1;
    }
    proof {
        assert(!srgb@.contains(true));
        lemma_chosen_is_first(srgb@, 0);
    }
    0
}

/// `chosen_format` is the first sRGB index, or 0 when there is none.
proof fn lemma_chosen_is_first(s: Seq<bool>, k: int)
    requires
        (0 <= k < s.len() && s[k] && forall|j: int| 0 <= j < k ==> !s[j]) || (!s.contains(true) && k == 0),
    ensures
        chosen_format(s) == k,
    decreases s.len(),
{
    if s.len() == 0 {
    } else if s[0] {
        if !s.contains(true) {
            assert(s.contains(true)) by { assert(s[0]); }
        }
    } else if !s.drop_first().contains(true) {
        if s.contains(true) {
            let j = choose|j: int| 0 <= j < s.len() && s[j] == true;
            assert(s.drop_first()[j - 1] == true);
        }
    } else {
        if !s.contains(true) {
            let j = choose|j: int| 0 <= j < s.drop_first().len() && s.drop_first()[j] == true;
            assert(s[j + 1] == true);
        }
        assert forall|j: int| 0 <= j < k - 1 implies !s.drop_first()[j] by {
            assert(s.drop_first()[j] == s[j + 1]);
        }
        assert(s.drop_first()[k - 1] == s[k]);
        lemma_chosen_is_first(s.drop_first(), k - 1);
    }
}

/// A resize with no zero side gives the window and the surface exactly the
/// reported width and height, in that order; one with a zero side changes
/// nothing.
pub proof fn lemma_resize_gives_reported_size(s: SurfaceView, width: u32, height: u32)
    ensures
        width > 0 && height > 0 ==> {
            &&& resized(s, width, height).width == width
            &&& resized(s, width, height).height == height
            &&& resized(s, width, height).window_width == width
            &&& resized(s, width, height).window_height == height
        },
        !(width > 0 && height > 0) ==> resized(s, width, height) == s,
{
}

/// A new surface records the window's size as given, and has that size
/// wherever a side is not zero and one pixel where it is.
pub proof fn lemma_initial_surface_size(width: u32, height: u32)
    ensures
        initial_surface(width, height).window_width == width,
        initial_surface(width, height).window_height == height,
        width > 0 ==> initial_surface(width, height).width == width,
        height > 0 ==> initial_surface(width, height).height == height,
        width == 0 ==> initial_surface(width, height).width == 1,
        height == 0 ==> initial_surface(width, height).height == 1,
{
}

/// What each failure does: a lost surface is configured again with the
/// window's size when it has no zero side (and otherwise nothing happens);
/// an outdated one waits for the next frame; a timeout, running out of memory
/// or any other failure is reported; only a lost surface changes size.
pub proof fn lemma_recovery_per_failure(s: SurfaceView)
    ensures
        s.window_width > 0 && s.window_height > 0 ==> {
            &&& recovery_for(s, RenderError::Lost) == RenderRecovery::Reconfigure
            &&& surface_after_error(s, RenderError::Lost).width == s.window_width
            &&& surface_after_error(s, RenderError::Lost).height == s.window_height
        },
        !(s.window_width > 0 && s.window_height > 0) ==> recovery_for(s, RenderError::Lost) == RenderRecovery::Nothing
            && surface_after_error(s, RenderError::Lost) == s,
        recovery_for(s, RenderError::Outdated) == RenderRecovery::Nothing,
        recovery_for(s, RenderError::Timeout) == RenderRecovery::Report,
        recovery_for(s, RenderError::OutOfMemory) == RenderRecovery::Report,
        recovery_for(s, RenderError::Other) == RenderRecovery::Report,
        surface_after_error(s, RenderError::Outdated) == s,
        surface_after_error(s, RenderError::Timeout) == s,
        surface_after_error(s, RenderError::OutOfMemory) == s,
        surface_after_error(s, RenderError::Other) == s,
{
}

} // verus!
