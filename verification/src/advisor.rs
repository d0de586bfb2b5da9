//! Rendering-strategy recommendation: a pure mapping from the observed load
//! parameter (marker count) to a rendering mode, plus the configuration record
//! the host keeps for the active map session.

use vstd::prelude::*;

verus! {

/// Largest object count for which plain DOM rendering is recommended.
pub const DOM_MAX_OBJECTS: u32 = 1000;

/// Largest object count for which canvas rendering is recommended; beyond it
/// WebGL is recommended.
pub const CANVAS_MAX_OBJECTS: u32 = 10000;

/// Object counts strictly above this raise the high-load flag. Deliberately
/// distinct from `CANVAS_MAX_OBJECTS`: the two policies are independent.
pub const HIGH_LOAD_THRESHOLD: u32 = 5000;

/// Largest object count a configuration accepts; requests above it are clamped.
pub const OBJECT_COUNT_LIMIT: u32 = 100000;

/// Smallest accepted animation speed, in thousandths of the natural rate.
pub const ANIMATION_SPEED_MIN_MILLI: u32 = 100;

/// Largest accepted animation speed, in thousandths of the natural rate.
pub const ANIMATION_SPEED_MAX_MILLI: u32 = 10000;

/// The three rendering strategies, ordered by capacity:
/// `DOM < Canvas < WebGL` (see `mode_rank`).
#[derive(Clone, Copy, Debug, PartialEq, Eq, Structural)]
pub enum RenderMode {
    DOM,
    Canvas,
    WebGL,
}

/// The capacity order of the rendering strategies.
pub open spec fn mode_rank(m: RenderMode) -> int {
    match m {
        RenderMode::DOM => 0,
        RenderMode::Canvas => 1,
        RenderMode::WebGL => 2,
    }
}

impl RenderMode {
    pub fn as_str(&self) -> (r: &'static str)
        ensures
            *self == RenderMode::DOM ==> r@ == "DOM"@,
            *self == RenderMode::Canvas ==> r@ == "Canvas"@,
            *self == RenderMode::WebGL ==> r@ == "WebGL"@,
    {
        match self {
            RenderMode::DOM => "DOM",
            RenderMode::Canvas => "Canvas",
            RenderMode::WebGL => "WebGL",
        }
    }
}

/// The recommended strategy for a given marker count: `[0, 1000]` DOM,
/// `(1000, 10000]` Canvas, `(10000, ∞)` WebGL.
pub open spec fn spec_recommend(object_count: u32) -> RenderMode {
    if object_count <= DOM_MAX_OBJECTS {
        RenderMode::DOM
    } else if object_count <= CANVAS_MAX_OBJECTS {
        RenderMode::Canvas
    } else {
        RenderMode::WebGL
    }
}

/// Pure, stateless policy mapping the observed load to a rendering strategy
/// and a high-load flag.
pub struct ModeAdvisor;

impl ModeAdvisor {
    /// The recommended rendering strategy for `object_count` markers.
    pub fn recommend(object_count: u32) -> (m: RenderMode)
        ensures
            m == spec_recommend(object_count),
            m == RenderMode::DOM <==> object_count <= DOM_MAX_OBJECTS,
            m == RenderMode::WebGL <==> object_count > CANVAS_MAX_OBJECTS,
    {
        if object_count <= DOM_MAX_OBJECTS {
            RenderMode::DOM
        } else if object_count <= CANVAS_MAX_OBJECTS {
            RenderMode::Canvas
        } else {
            RenderMode::WebGL
        }
    }

    /// Whether `object_count` markers count as high load. Its breakpoint is
    /// independent of the mode breakpoints.
    pub fn is_high_load(object_count: u32) -> (b: bool)
        ensures
            b == (object_count > HIGH_LOAD_THRESHOLD),
    {
        object_count > HIGH_LOAD_THRESHOLD
    }
}

/// Law: the recommendation never steps down in capacity as the load grows.
pub proof fn lemma_recommend_monotone(a: u32, b: u32)
    requires
        a <= b,
    ensures
        mode_rank(spec_recommend(a)) <= mode_rank(spec_recommend(b)),
{
}

/// The host-side configuration of one map session. Mutation goes through the
/// setters below, which clamp out-of-range requests.
#[derive(Clone, Copy, Debug)]
pub struct MapConfig {
    pub object_count: u32,
    pub render_mode: RenderMode,
    /// Animation speed in thousandths of the natural rate.
    pub animation_speed_milli: u32,
    pub auto_pan: bool,
    pub show_fps: bool,
}

impl Default for MapConfig {
    /// The session defaults: one thousand markers drawn with the DOM strategy
    /// at natural speed, panning off, frame-rate display on.
    fn default() -> (c: Self)
        ensures
            c.object_count == 1000,
            c.render_mode == RenderMode::DOM,
            c.animation_speed_milli == 1000,
            !c.auto_pan,
            c.show_fps,
    {
        MapConfig {
            object_count: 1000,
            render_mode: RenderMode::DOM,
            animation_speed_milli: 1000,
            auto_pan: false,
            show_fps: true,
        }
    }
}

impl MapConfig {
    /// Sets the marker count, clamped to at most `OBJECT_COUNT_LIMIT`.
    pub fn set_object_count(&mut self, count: u32)
        ensures
            final(self).object_count == if count > OBJECT_COUNT_LIMIT {
                OBJECT_COUNT_LIMIT
            } else {
                count
            },
            final(self).render_mode == old(self).render_mode,
            final(self).animation_speed_milli == old(self).animation_speed_milli,
            final(self).auto_pan == old(self).auto_pan,
            final(self).show_fps == old(self).show_fps,
    {
        self.object_count = if count > OBJECT_COUNT_LIMIT {
            OBJECT_COUNT_LIMIT
        } else {
            count
        };
    }

    pub fn set_render_mode(&mut self, mode: RenderMode)
        ensures
            final(self).render_mode == mode,
            final(self).object_count == old(self).object_count,
            final(self).animation_speed_milli == old(self).animation_speed_milli,
            final(self).auto_pan == old(self).auto_pan,
            final(self).show_fps == old(self).show_fps,
    {
        self.render_mode = mode;
    }

    /// Sets the animation speed, clamped to
    /// `[ANIMATION_SPEED_MIN_MILLI, ANIMATION_SPEED_MAX_MILLI]`.
    pub fn set_animation_speed(&mut self, speed_milli: u32)
        ensures
            final(self).animation_speed_milli == if speed_milli < ANIMATION_SPEED_MIN_MILLI {
                ANIMATION_SPEED_MIN_MILLI
            } else if speed_milli > ANIMATION_SPEED_MAX_MILLI {
                ANIMATION_SPEED_MAX_MILLI
            } else {
                speed_milli
            },
            final(self).object_count == old(self).object_count,
            final(self).render_mode == old(self).render_mode,
            final(self).auto_pan == old(self).auto_pan,
            final(self).show_fps == old(self).show_fps,
    {
        self.animation_speed_milli = if speed_milli < ANIMATION_SPEED_MIN_MILLI {
            ANIMATION_SPEED_MIN_MILLI
        } else if speed_milli > ANIMATION_SPEED_MAX_MILLI {
            ANIMATION_SPEED_MAX_MILLI
        } else {
            speed_milli
        };
    }

    pub fn toggle_auto_pan(&mut self)
        ensures
            final(self).auto_pan == !old(self).auto_pan,
            final(self).object_count == old(self).object_count,
            final(self).render_mode == old(self).render_mode,
            final(self).animation_speed_milli == old(self).animation_speed_milli,
            final(self).show_fps == old(self).show_fps,
    {
        self.auto_pan = !self.auto_pan;
    }

    pub fn toggle_fps_display(&mut self)
        ensures
            final(self).show_fps == !old(self).show_fps,
            final(self).object_count == old(self).object_count,
            final(self).render_mode == old(self).render_mode,
            final(self).animation_speed_milli == old(self).animation_speed_milli,
            final(self).auto_pan == old(self).auto_pan,
    {
        self.show_fps = !self.show_fps;
    }
}

} // verus!
