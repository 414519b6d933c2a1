//! The view-scale controller: an integer zoom level with a floor of 1,
//! stepped by discrete key events, and the render scale derived from it.

use vstd::prelude::*;

verus! {

/// A discrete key event, as the host hands it to the controller. The two
/// zoom keys are mapped by the host; every other key is `Other`.
#[derive(Clone, Copy, PartialEq, Eq, Structural, Debug)]
pub enum ZoomKey {
    ZoomIn,
    ZoomOut,
    Other,
}

/// Notification that the zoom level actually changed, carrying the new level.
#[derive(Clone, Copy, PartialEq, Eq, Structural, Debug)]
pub struct ZoomLevelChanged {
    pub new_level: u32,
}

/// The zoom level a single key event takes `level` to: zoom-in always steps
/// up by one, zoom-out steps down by one but never below the floor of 1,
/// and any other key leaves the level alone.
pub open spec fn spec_next_level(level: int, key: ZoomKey) -> int {
    match key {
        ZoomKey::ZoomIn => level + 1,
        ZoomKey::ZoomOut => if level > 1 {
            level - 1
        } else {
            level
        },
        ZoomKey::Other => level,
    }
}

/// The zoom level a whole sequence of key events takes `level` to,
/// applied in order.
pub open spec fn spec_level_after(level: int, keys: Seq<ZoomKey>) -> int
    decreases keys.len(),
{
    if keys.len() == 0 {
        level
    } else {
        spec_level_after(spec_next_level(level, keys[0]), keys.skip(1))
    }
}

/// The view state: a positive integer zoom level, initialized to 1 and
/// mutated only through `on_key_event`.
pub struct ViewInfo {
    pixel_scale: u32,
}

impl ViewInfo {
    /// The current zoom level.
    pub closed spec fn level(self) -> int {
        self.pixel_scale as int
    }

    /// The invariant: the zoom level never drops below 1.
    pub open spec fn wf(self) -> bool {
        self.level() >= 1
    }

    /// The startup state: zoom level 1.
    pub fn new() -> (r: ViewInfo)
        ensures
            r.wf(),
            r.level() == 1,
    {
        ViewInfo { pixel_scale: 1 }
    }

    /// The current zoom level, as the machine integer it is stored in.
    pub fn pixel_scale(&self) -> (r: u32)
        ensures
            r as int == self.level(),
    {
        self.pixel_scale
    }

    /// Steps the zoom level by one discrete key event: zoom-in increments,
    /// zoom-out decrements unless the level already sits at the floor of 1,
    /// and any other key is ignored. Returns a change notification exactly
    /// when the level actually changed.
    pub fn on_key_event(&mut self, key: ZoomKey) -> (r: Option<ZoomLevelChanged>)
        requires
            old(self).wf(),
            old(self).level() < u32::MAX,
        ensures
            final(self).wf(),
            final(self).level() == spec_next_level(old(self).level(), key),
            r is Some <==> final(self).level() != old(self).level(),
            r matches Some(c) ==> c.new_level as int == final(self).level(),
    {
        match key {
            ZoomKey::ZoomIn => {
                self.pixel_scale = self.pixel_scale + 1;
                Some(ZoomLevelChanged { new_level: self.pixel_scale })
            },
            ZoomKey::ZoomOut => {
                if self.pixel_scale > 1 {
                    self.pixel_scale = self.pixel_scale - 1;
                    Some(ZoomLevelChanged { new_level: self.pixel_scale })
                } else {
                    None
                }
            },
            ZoomKey::Other => None,
        }
    }
}

proof fn lemma_zoom_in_run(level: int, keys: Seq<ZoomKey>)
    requires
        forall|i: int| 0 <= i < keys.len() ==> keys[i] == ZoomKey::ZoomIn,
    ensures
        spec_level_after(level, keys) == level + keys.len(),
    decreases keys.len(),
{
    if keys.len() > 0 {
        assert forall|i: int| 0 <= i < keys.skip(1).len() implies keys.skip(1)[i]
            == ZoomKey::ZoomIn by {
            assert(keys.skip(1)[i] == keys[i + 1]);
        }
        lemma_zoom_in_run(level + 1, keys.skip(1));
    }
}

/// Every sequence made only of zoom-in events, starting from level 1,
/// leaves the zoom level at 1 plus the number of events.
pub proof fn lemma_zoom_in_from_one(keys: Seq<ZoomKey>)
    requires
        forall|i: int| 0 <= i < keys.len() ==> keys[i] == ZoomKey::ZoomIn,
    ensures
        spec_level_after(1, keys) == 1 + keys.len(),
{
    lemma_zoom_in_run(1, keys);
}

/// The zoom level never drops below 1: any sequence of key events,
/// started at a level of at least 1, ends at a level of at least 1.
pub proof fn lemma_level_never_below_one(level: int, keys: Seq<ZoomKey>)
    requires
        level >= 1,
    ensures
        spec_level_after(level, keys) >= 1,
    decreases keys.len(),
{
    if keys.len() > 0 {
        lemma_level_never_below_one(spec_next_level(level, keys[0]), keys.skip(1));
    }
}

/// A sequence of zoom-out events, started at any level of at least 1,
/// never takes the zoom level below 1: the level after every prefix of
/// the sequence is still at least 1.
pub proof fn lemma_zoom_out_clamped(level: int, keys: Seq<ZoomKey>)
    requires
        level >= 1,
        forall|i: int| 0 <= i < keys.len() ==> keys[i] == ZoomKey::ZoomOut,
    ensures
        forall|n: int| 0 <= n <= keys.len() ==> spec_level_after(level, keys.take(n)) >= 1,
{
    assert forall|n: int| 0 <= n <= keys.len() implies spec_level_after(level, keys.take(n))
        >= 1 by {
        lemma_level_never_below_one(level, keys.take(n));
    }
}

/// The scale factors the presentation layer derives from a zoom level:
/// the UI is scaled up by the level itself, and the camera is scaled down
/// by its reciprocal, uniformly on both axes. The reciprocal is carried as
/// its denominator, so the camera scale is `1 / camera_scale_denom`.
#[derive(Clone, Copy, PartialEq, Eq, Structural, Debug)]
pub struct RenderScale {
    pub ui_scale: u32,
    pub camera_scale_denom: u32,
}

/// The render scale a zoom level maps to: UI scale factor equal to the
/// level, camera scale factor equal to its reciprocal.
pub open spec fn spec_render_scale(level: u32) -> RenderScale {
    RenderScale { ui_scale: level, camera_scale_denom: level }
}

impl RenderScale {
    /// Derives the render scale from a zoom level: the UI scale factor is
    /// the level itself and the camera scale is its reciprocal, represented
    /// by its denominator.
    pub fn of_level(level: u32) -> (r: RenderScale)
        requires
            level >= 1,
        ensures
            r == spec_render_scale(level),
    {
        RenderScale { ui_scale: level, camera_scale_denom: level }
    }
}

/// What one application step does to the presentation layer: given the zoom
/// level last propagated downstream (`None` before the first propagation)
/// and the current level, it yields the new propagated level and the render
/// scale to push downstream — `None` when the level is already in effect,
/// so nothing redundant is recomputed.
pub open spec fn spec_apply(applied: Option<u32>, level: u32) -> (Option<u32>, Option<
    RenderScale,
>) {
    if applied == Some(level) {
        (applied, None)
    } else {
        (Some(level), Some(spec_render_scale(level)))
    }
}

/// Tracks which zoom level was last propagated to the presentation
/// surfaces, so that the derivation runs only on an actual change.
pub struct ViewScaleState {
    applied: Option<u32>,
}

impl ViewScaleState {
    /// The zoom level last propagated downstream, if any.
    pub closed spec fn applied(self) -> Option<u32> {
        self.applied
    }

    /// The startup state: nothing propagated yet, so the first application
    /// always pushes a render scale downstream.
    pub fn new() -> (r: ViewScaleState)
        ensures
            r.applied() is None,
    {
        ViewScaleState { applied: None }
    }

    /// Applies a zoom level to the presentation surfaces: returns the
    /// derived render scale to push downstream exactly when the level
    /// differs from the one last propagated, and records it; returns
    /// `None` when the level is already in effect.
    pub fn apply(&mut self, level: u32) -> (r: Option<RenderScale>)
        requires
            level >= 1,
        ensures
            (final(self).applied(), r) == spec_apply(old(self).applied(), level),
    {
        let already = match self.applied {
            Some(a) => a == level,
            None => false,
        };
        if already {
            None
        } else {
            self.applied = Some(level);
            Some(RenderScale::of_level(level))
        }
    }
}

/// Applying the render-scale derivation twice with the same zoom level is
/// idempotent: both applications derive the same scale pair, the second
/// one pushes nothing downstream (no redundant side effect), and the
/// recorded state does not change again.
pub proof fn lemma_apply_idempotent(applied: Option<u32>, level: u32)
    requires
        level >= 1,
    ensures
        ({
            let (a1, r1) = spec_apply(applied, level);
            let (a2, r2) = spec_apply(a1, level);
            &&& a1 == Some(level)
            &&& a2 == a1
            &&& r2 is None
            &&& (r1 matches Some(s) ==> s == spec_render_scale(level))
        }),
{
}

} // verus!
