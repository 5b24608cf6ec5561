//! Window state and the window registry.
//!
//! Geometry is held in integers. Physical sizes are whole pixels. Logical
//! sizes are millipixels (one thousandth of a logical pixel). Scale factors
//! are milli-units: `SCALE_ONE_MILLI` is a factor of one. A physical size
//! `p` at scale `s` has logical size `p * 1_000_000 / s` millipixels, since
//! one pixel is a thousand millipixels and the factor itself carries a
//! further thousand.
//!
//! The registry owns at most one window: the primary. The whole loop is
//! specified for exactly one window, and a request to open a further one is
//! rejected with a warning and no state change.

use vstd::prelude::*;

verus! {

/// A scale factor of one, in milli-units.
pub const SCALE_ONE_MILLI: u32 = 1000;

/// The largest accepted scale factor, in milli-units (a factor of one
/// thousand).
pub const MAX_SCALE_MILLI: u32 = 1_000_000;

/// The largest representable logical length in millipixels: `u32::MAX`
/// whole pixels.
pub const MAX_LOGICAL_MILLI: u64 = 4_294_967_295_000;

/// Logical-size changes of at most this many millipixels are treated as
/// rounding noise and reported to nobody. One logical pixel absorbs the
/// off-by-one jitter that repeated physical/logical conversion produces.
pub const DEFAULT_RESIZE_TOLERANCE_MILLI: u64 = 1000;

/// Identifies one logical window for its whole lifetime.
#[derive(Clone, Copy, Debug, PartialEq, Eq, Hash, Structural)]
pub struct WindowId {
    pub raw: u32,
}

/// The identifier the primary window always gets.
pub open spec fn spec_primary_id() -> WindowId {
    WindowId { raw: 0 }
}

impl WindowId {
    /// The identifier of the primary window.
    pub fn primary() -> (id: WindowId)
        ensures
            id == spec_primary_id(),
    {
        WindowId { raw: 0 }
    }
}

/// Windowed or fullscreen presentation.
#[derive(Clone, Copy, Debug, PartialEq, Eq, Structural)]
pub enum WindowMode {
    Windowed,
    Fullscreen,
}

/// `|a - b|` over the mathematical integers.
pub open spec fn abs_diff(a: int, b: int) -> int {
    if a >= b {
        a - b
    } else {
        b - a
    }
}

/// `|a - b|` for machine words, equal to [`abs_diff`].
pub fn abs_diff_u64(a: u64, b: u64) -> (d: u64)
    ensures
        d == abs_diff(a as int, b as int),
{
    if a >= b {
        a - b
    } else {
        b - a
    }
}

/// Logical length in millipixels of `physical` pixels at scale factor
/// `scale_milli` (milli-units).
pub open spec fn logical_millis(physical: int, scale_milli: int) -> int
    recommends
        scale_milli >= 1,
{
    physical * 1_000_000 / scale_milli
}

/// Physical length in pixels of `logical_milli` millipixels at scale factor
/// `scale_milli` (milli-units), before clamping.
pub open spec fn physical_pixels(logical_milli: int, scale_milli: int) -> int
    recommends
        scale_milli >= 1,
{
    logical_milli * scale_milli / 1_000_000
}

/// Clamps a non-negative length into the range of `u32`.
pub open spec fn clamp_u32(x: int) -> int {
    if x <= u32::MAX {
        x
    } else {
        u32::MAX as int
    }
}

/// Computes [`logical_millis`] on machine words.
pub fn logical_of(physical: u32, scale_milli: u32) -> (r: u64)
    requires
        1 <= scale_milli,
    ensures
        r == logical_millis(physical as int, scale_milli as int),
{
    (physical as u64) * 1_000_000 / (scale_milli as u64)
}

/// Computes [`physical_pixels`] on machine words, clamped into `u32`.
pub fn physical_of(logical_milli: u64, scale_milli: u32) -> (r: u32)
    requires
        logical_milli <= MAX_LOGICAL_MILLI,
        1 <= scale_milli <= MAX_SCALE_MILLI,
    ensures
        r == clamp_u32(physical_pixels(logical_milli as int, scale_milli as int)),
{
    proof {
        assert(logical_milli * scale_milli <= 4_294_967_295_000int * 1_000_000int)
            by (nonlinear_arith)
            requires
                logical_milli <= 4_294_967_295_000,
                scale_milli <= 1_000_000,
        ;
    }
    let p: u64 = logical_milli * (scale_milli as u64) / 1_000_000;
    if p > u32::MAX as u64 {
        u32::MAX
    } else {
        p as u32
    }
}

/// Everything the registry knows about one window.
#[derive(Clone, Copy, Debug)]
pub struct WindowState {
    /// Logical width the application asked for, in millipixels.
    pub requested_width_milli: u64,
    /// Logical height the application asked for, in millipixels.
    pub requested_height_milli: u64,
    /// Actual inner width in physical pixels, as the backend last reported.
    pub physical_width: u32,
    /// Actual inner height in physical pixels.
    pub physical_height: u32,
    /// Scale factor the backend last reported, in milli-units.
    pub scale_factor_milli: u32,
    /// Configured override; when present it wins over the backend factor.
    pub scale_factor_override_milli: Option<u32>,
    pub focused: bool,
    pub position_x: i32,
    pub position_y: i32,
    pub minimized: bool,
    pub maximized: bool,
    pub mode: WindowMode,
    pub resizable: bool,
    pub decorations: bool,
    /// Logical-size deltas of at most this many millipixels emit no resize
    /// event.
    pub resize_tolerance_milli: u64,
}

/// What one application asks of a window it opens.
#[derive(Clone, Copy, Debug)]
pub struct WindowDescriptor {
    pub requested_width_milli: u64,
    pub requested_height_milli: u64,
    pub scale_factor_override_milli: Option<u32>,
    pub mode: WindowMode,
    pub resizable: bool,
    pub decorations: bool,
}

impl WindowDescriptor {
    pub open spec fn wf(self) -> bool {
        &&& self.requested_width_milli <= MAX_LOGICAL_MILLI
        &&& self.requested_height_milli <= MAX_LOGICAL_MILLI
        &&& (self.scale_factor_override_milli matches Some(f) ==> 1 <= f <= MAX_SCALE_MILLI)
    }
}

/// The outcome of a scale-factor change applied to a window.
#[derive(Clone, Copy, Debug)]
pub struct ScaleChange {
    /// The effective factor changed, so a scale-factor-changed event is due.
    /// Never set while an override is configured: the override pins the
    /// effective factor.
    pub rescaled: bool,
    /// New logical size (width, height) in millipixels, present exactly when
    /// the change moved the logical size beyond the tolerance.
    pub resized: Option<(u64, u64)>,
    /// Inner width in physical pixels the window now has. With an override
    /// configured this is forced from the requested logical size and the
    /// caller must impose it on the native window.
    pub inner_width: u32,
    /// Inner height in physical pixels the window now has.
    pub inner_height: u32,
    /// The inner size above was forced from the override, overruling the
    /// size the backend reported.
    pub forced: bool,
}

impl WindowState {
    /// Internal consistency: factors in range and requested sizes
    /// representable.
    pub open spec fn wf(self) -> bool {
        &&& 1 <= self.scale_factor_milli <= MAX_SCALE_MILLI
        &&& (self.scale_factor_override_milli matches Some(f) ==> 1 <= f <= MAX_SCALE_MILLI)
        &&& self.requested_width_milli <= MAX_LOGICAL_MILLI
        &&& self.requested_height_milli <= MAX_LOGICAL_MILLI
    }

    /// The factor that actually applies: the override if configured, else
    /// what the backend reported.
    pub open spec fn spec_scale_milli(self) -> int {
        match self.scale_factor_override_milli {
            Some(f) => f as int,
            None => self.scale_factor_milli as int,
        }
    }

    pub open spec fn spec_logical_width_milli(self) -> int {
        logical_millis(self.physical_width as int, self.spec_scale_milli())
    }

    pub open spec fn spec_logical_height_milli(self) -> int {
        logical_millis(self.physical_height as int, self.spec_scale_milli())
    }

    /// The state a freshly opened window starts in: backend factor one,
    /// actual size derived from the requested size at the effective factor,
    /// unfocused, at the origin.
    pub open spec fn spec_from_descriptor(desc: WindowDescriptor) -> WindowState {
        let eff = match desc.scale_factor_override_milli {
            Some(f) => f as int,
            None => SCALE_ONE_MILLI as int,
        };
        WindowState {
            requested_width_milli: desc.requested_width_milli,
            requested_height_milli: desc.requested_height_milli,
            physical_width: clamp_u32(physical_pixels(desc.requested_width_milli as int, eff)) as u32,
            physical_height: clamp_u32(physical_pixels(desc.requested_height_milli as int, eff)) as u32,
            scale_factor_milli: SCALE_ONE_MILLI,
            scale_factor_override_milli: desc.scale_factor_override_milli,
            focused: false,
            position_x: 0,
            position_y: 0,
            minimized: false,
            maximized: false,
            mode: desc.mode,
            resizable: desc.resizable,
            decorations: desc.decorations,
            resize_tolerance_milli: DEFAULT_RESIZE_TOLERANCE_MILLI,
        }
    }

    /// Opens a window as `desc` asks.
    pub fn from_descriptor(desc: WindowDescriptor) -> (s: WindowState)
        requires
            desc.wf(),
        ensures
            s == Self::spec_from_descriptor(desc),
            s.wf(),
    {
        let eff: u32 = match desc.scale_factor_override_milli {
            Some(f) => f,
            None => SCALE_ONE_MILLI,
        };
        WindowState {
            physical_width: physical_of(desc.requested_width_milli, eff),
            physical_height: physical_of(desc.requested_height_milli, eff),
            requested_width_milli: desc.requested_width_milli,
            requested_height_milli: desc.requested_height_milli,
            scale_factor_milli: SCALE_ONE_MILLI,
            scale_factor_override_milli: desc.scale_factor_override_milli,
            focused: false,
            position_x: 0,
            position_y: 0,
            minimized: false,
            maximized: false,
            mode: desc.mode,
            resizable: desc.resizable,
            decorations: desc.decorations,
            resize_tolerance_milli: DEFAULT_RESIZE_TOLERANCE_MILLI,
        }
    }

    /// The effective scale factor on machine words.
    pub fn scale_milli_effective(&self) -> (s: u32)
        ensures
            s == self.spec_scale_milli(),
    {
        match self.scale_factor_override_milli {
            Some(f) => f,
            None => self.scale_factor_milli,
        }
    }

    pub fn logical_width_milli(&self) -> (w: u64)
        requires
            self.wf(),
        ensures
            w == self.spec_logical_width_milli(),
    {
        logical_of(self.physical_width, self.scale_milli_effective())
    }

    pub fn logical_height_milli(&self) -> (h: u64)
        requires
            self.wf(),
        ensures
            h == self.spec_logical_height_milli(),
    {
        logical_of(self.physical_height, self.scale_milli_effective())
    }

    /// Whether accepting the physical size `w` x `h` moves the logical size
    /// beyond the tolerance, so that a resize event is owed.
    pub open spec fn spec_resize_emits(self, w: u32, h: u32) -> bool {
        ||| abs_diff(
            logical_millis(w as int, self.spec_scale_milli()),
            self.spec_logical_width_milli(),
        ) > self.resize_tolerance_milli
        ||| abs_diff(
            logical_millis(h as int, self.spec_scale_milli()),
            self.spec_logical_height_milli(),
        ) > self.resize_tolerance_milli
    }

    /// Accepts a new actual size from the backend.
    ///
    /// The stored physical size always follows the backend. A resize is
    /// reported — as the new logical size in millipixels — exactly when the
    /// logical size moved by more than the tolerance; sub-tolerance jitter
    /// mutates state silently.
    pub fn apply_resize(&mut self, w: u32, h: u32) -> (emitted: Option<(u64, u64)>)
        requires
            old(self).wf(),
        ensures
            final(self).wf(),
            *final(self) == (WindowState { physical_width: w, physical_height: h, ..*old(self) }),
            emitted matches Some(sz) ==> old(self).spec_resize_emits(w, h) && sz.0
                == final(self).spec_logical_width_milli() && sz.1
                == final(self).spec_logical_height_milli(),
            emitted is None ==> !old(self).spec_resize_emits(w, h),
    {
        let scale = self.scale_milli_effective();
        let old_lw = logical_of(self.physical_width, scale);
        let old_lh = logical_of(self.physical_height, scale);
        let new_lw = logical_of(w, scale);
        let new_lh = logical_of(h, scale);
        self.physical_width = w;
        self.physical_height = h;
        if abs_diff_u64(new_lw, old_lw) > self.resize_tolerance_milli || abs_diff_u64(
            new_lh,
            old_lh,
        ) > self.resize_tolerance_milli {
            Some((new_lw, new_lh))
        } else {
            None
        }
    }

    /// Accepts a new position from the backend.
    pub fn apply_move(&mut self, x: i32, y: i32)
        ensures
            *final(self) == (WindowState { position_x: x, position_y: y, ..*old(self) }),
    {
        self.position_x = x;
        self.position_y = y;
    }

    /// Accepts a new focus flag from the backend.
    pub fn apply_focus(&mut self, focused: bool)
        ensures
            *final(self) == (WindowState { focused, ..*old(self) }),
    {
        self.focused = focused;
    }

    /// The inner size an override forces: the requested logical size scaled
    /// by the override factor.
    pub open spec fn spec_forced_inner(self, f: u32) -> (int, int) {
        (
            clamp_u32(physical_pixels(self.requested_width_milli as int, f as int)),
            clamp_u32(physical_pixels(self.requested_height_milli as int, f as int)),
        )
    }

    /// The full outcome of a scale-factor change, as a function of the
    /// prior state and what the backend reported.
    pub open spec fn spec_scale_outcome(
        self,
        new_scale_milli: u32,
        inner_w: u32,
        inner_h: u32,
    ) -> ScaleChange {
        let eff: int = match self.scale_factor_override_milli {
            Some(f) => f as int,
            None => new_scale_milli as int,
        };
        let aw: int = match self.scale_factor_override_milli {
            Some(f) => self.spec_forced_inner(f).0,
            None => inner_w as int,
        };
        let ah: int = match self.scale_factor_override_milli {
            Some(f) => self.spec_forced_inner(f).1,
            None => inner_h as int,
        };
        let nlw = logical_millis(aw, eff);
        let nlh = logical_millis(ah, eff);
        let plw = logical_millis(self.physical_width as int, eff);
        let plh = logical_millis(self.physical_height as int, eff);
        ScaleChange {
            rescaled: self.scale_factor_override_milli is None && new_scale_milli
                != self.scale_factor_milli,
            resized: if abs_diff(nlw, plw) > self.resize_tolerance_milli || abs_diff(nlh, plh)
                > self.resize_tolerance_milli {
                Some((nlw as u64, nlh as u64))
            } else {
                None
            },
            inner_width: aw as u32,
            inner_height: ah as u32,
            forced: self.scale_factor_override_milli is Some,
        }
    }

    /// The state a scale-factor change leaves behind: the backend factor
    /// recorded, the accepted (possibly forced) inner size stored.
    pub open spec fn spec_state_after_scale(
        self,
        new_scale_milli: u32,
        inner_w: u32,
        inner_h: u32,
    ) -> WindowState {
        let o = self.spec_scale_outcome(new_scale_milli, inner_w, inner_h);
        WindowState {
            scale_factor_milli: new_scale_milli,
            physical_width: o.inner_width,
            physical_height: o.inner_height,
            ..self
        }
    }

    /// Accepts a new scale factor from the backend, together with the inner
    /// size the backend proposes.
    ///
    /// With an override configured, the proposed inner size is discarded and
    /// the window is forced to the override-scaled requested size; the
    /// effective factor is pinned by the override, so no scale-factor-changed
    /// event is due. Without an override, the proposed size is accepted and a
    /// scale-factor-changed event is due exactly when the effective factor
    /// moved. Either way, the logical size is recomputed from the accepted
    /// inner size and the new effective factor, and a resize is reported when
    /// it moved beyond the tolerance against the prior physical size read at
    /// that same new factor.
    pub fn apply_scale_factor(&mut self, new_scale_milli: u32, inner_w: u32, inner_h: u32) -> (out:
        ScaleChange)
        requires
            old(self).wf(),
            1 <= new_scale_milli <= MAX_SCALE_MILLI,
        ensures
            final(self).wf(),
            out == old(self).spec_scale_outcome(new_scale_milli, inner_w, inner_h),
            *final(self) == old(self).spec_state_after_scale(new_scale_milli, inner_w, inner_h),
    {
        let prior_backend = self.scale_factor_milli;
        self.scale_factor_milli = new_scale_milli;
        let eff = self.scale_milli_effective();
        let (acc_w, acc_h, rescaled, forced): (u32, u32, bool, bool) =
            match self.scale_factor_override_milli {
            Some(f) => (
                physical_of(self.requested_width_milli, f),
                physical_of(self.requested_height_milli, f),
                false,
                true,
            ),
            None => (inner_w, inner_h, new_scale_milli != prior_backend, false),
        };
        let prior_lw = logical_of(self.physical_width, eff);
        let prior_lh = logical_of(self.physical_height, eff);
        let new_lw = logical_of(acc_w, eff);
        let new_lh = logical_of(acc_h, eff);
        let resized: Option<(u64, u64)> = if abs_diff_u64(new_lw, prior_lw)
            > self.resize_tolerance_milli || abs_diff_u64(new_lh, prior_lh)
            > self.resize_tolerance_milli {
            Some((new_lw, new_lh))
        } else {
            None
        };
        self.physical_width = acc_w;
        self.physical_height = acc_h;
        ScaleChange { rescaled, resized, inner_width: acc_w, inner_height: acc_h, forced }
    }
}

impl WindowState {
    /// The state after accepting a backend resize: only the stored
    /// physical size moves.
    pub open spec fn spec_after_resize(self, w: u32, h: u32) -> WindowState {
        WindowState { physical_width: w, physical_height: h, ..self }
    }
}

/// How many resize events a run of backend resizes emits, applied in
/// order, each measured against the state the previous ones left behind.
pub open spec fn spec_resize_run_count(s: WindowState, rs: Seq<(u32, u32)>) -> nat
    decreases rs.len(),
{
    if rs.len() == 0 {
        0
    } else {
        (if s.spec_resize_emits(rs[0].0, rs[0].1) {
            1nat
        } else {
            0nat
        }) + spec_resize_run_count(s.spec_after_resize(rs[0].0, rs[0].1), rs.drop_first())
    }
}

/// Whether the `i`-th resize of the run, measured against the size the
/// run holds just before it, stays within the tolerance on both axes.
pub open spec fn spec_run_step_within_tolerance(
    s: WindowState,
    rs: Seq<(u32, u32)>,
    i: int,
) -> bool
    recommends
        0 <= i < rs.len(),
{
    let prev_w: int = if i == 0 {
        s.physical_width as int
    } else {
        rs[i - 1].0 as int
    };
    let prev_h: int = if i == 0 {
        s.physical_height as int
    } else {
        rs[i - 1].1 as int
    };
    &&& abs_diff(
        logical_millis(rs[i].0 as int, s.spec_scale_milli()),
        logical_millis(prev_w, s.spec_scale_milli()),
    ) <= s.resize_tolerance_milli
    &&& abs_diff(
        logical_millis(rs[i].1 as int, s.spec_scale_milli()),
        logical_millis(prev_h, s.spec_scale_milli()),
    ) <= s.resize_tolerance_milli
}

/// A run of backend resizes whose logical-size deltas all stay within the
/// tolerance emits no resize event at all, however long the run and
/// however far the sizes drift in total.
pub proof fn lemma_subtolerance_resizes_silent(s: WindowState, rs: Seq<(u32, u32)>)
    requires
        forall|i: int| 0 <= i < rs.len() ==> #[trigger] spec_run_step_within_tolerance(s, rs, i),
    ensures
        spec_resize_run_count(s, rs) == 0,
    decreases rs.len(),
{
    if rs.len() > 0 {
        assert(spec_run_step_within_tolerance(s, rs, 0));
        let s2 = s.spec_after_resize(rs[0].0, rs[0].1);
        assert forall|i: int|
            0 <= i < rs.drop_first().len() implies #[trigger] spec_run_step_within_tolerance(
            s2,
            rs.drop_first(),
            i,
        ) by {
            assert(spec_run_step_within_tolerance(s, rs, i + 1));
            assert(rs.drop_first()[i] == rs[i + 1]);
            if i > 0 {
                assert(rs.drop_first()[i - 1] == rs[i]);
            }
        }
        lemma_subtolerance_resizes_silent(s2, rs.drop_first());
    }
}

/// A backend resize whose logical-size delta lies beyond the tolerance
/// emits exactly one resize event, and it carries the new logical size.
pub proof fn lemma_overtolerance_resize_emits_once(s: WindowState, w: u32, h: u32)
    requires
        s.spec_resize_emits(w, h),
    ensures
        spec_resize_run_count(s, seq![(w, h)]) == 1,
{
    let rs: Seq<(u32, u32)> = seq![(w, h)];
    assert(rs[0] == (w, h));
    assert(rs.drop_first() =~= Seq::<(u32, u32)>::empty());
    assert(spec_resize_run_count(s.spec_after_resize(w, h), rs.drop_first()) == 0);
}

/// With an override configured, a scale-factor change always forces the
/// inner size to the override-scaled requested size: the outcome is the
/// same whatever inner size the backend reported alongside the change.
pub proof fn lemma_override_pins_inner_size(
    s: WindowState,
    new_scale_milli: u32,
    f: u32,
    iw1: u32,
    ih1: u32,
    iw2: u32,
    ih2: u32,
)
    requires
        s.scale_factor_override_milli == Some(f),
    ensures
        s.spec_scale_outcome(new_scale_milli, iw1, ih1).inner_width == clamp_u32(
            physical_pixels(s.requested_width_milli as int, f as int),
        ),
        s.spec_scale_outcome(new_scale_milli, iw1, ih1).inner_height == clamp_u32(
            physical_pixels(s.requested_height_milli as int, f as int),
        ),
        s.spec_scale_outcome(new_scale_milli, iw1, ih1) == s.spec_scale_outcome(
            new_scale_milli,
            iw2,
            ih2,
        ),
{
}

} // verus!
