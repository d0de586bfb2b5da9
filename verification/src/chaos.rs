//! Synthetic fault-event generation under a bounded event log. The engine
//! produces categorized chaos events in batches from a deterministic
//! pseudo-random generator seeded by the host, keeps the most recent 128
//! events, counts every event ever spawned, and derives per-category counts
//! and an event rate for the display layer.

use vstd::prelude::*;

use crate::bounded::retained;
use crate::bounded::BoundedSeries;
use crate::numfmt::dec_digits;
use crate::numfmt::push_u64;

verus! {

/// How many events the log retains; older events are evicted in FIFO order.
pub const CHAOS_LOG_CAPACITY: usize = 128;

/// How many events the extreme test spawns in one call.
pub const CHAOS_LEVEL_3_EVENT_COUNT: usize = 1000;

/// The smallest accepted intensity.
pub const INTENSITY_MIN: u8 = 1;

/// The largest accepted intensity.
pub const INTENSITY_MAX: u8 = 10;

/// The multiplier of the linear-congruential generator (Knuth's MMIX line).
pub const RNG_MULTIPLIER: u64 = 6364136223846793005;

/// The increment of the linear-congruential generator.
pub const RNG_INCREMENT: u64 = 1442695040888963407;

/// One generator step: a linear-congruential update modulo 2^64.
pub open spec fn spec_rng_next(state: u64) -> u64 {
    state.wrapping_mul(RNG_MULTIPLIER).wrapping_add(RNG_INCREMENT)
}

/// The kind of visual distortion an event carries; the generator only ever
/// produces glitches.
#[derive(Clone, Copy, Debug, PartialEq, Eq, Structural)]
pub enum DistortionKind {
    Glitch,
}

/// The payload of one synthetic fault event. Fractions are fixed-point:
/// a severity or noise of 1000 means 1.0, and a speed multiplier of 1000
/// means natural speed.
#[derive(Clone, Copy, Debug, PartialEq, Eq, Structural)]
pub enum ChaosEventKind {
    UIGlitch { element_id: u32, severity_milli: u32 },
    InputCorruption { delay_ms: u32, noise_milli: u32 },
    VisualDistortion { kind: DistortionKind },
    TimeWarp { speed_multiplier_milli: u32 },
}

/// The four event categories, without payloads, for the per-category counts.
#[derive(Clone, Copy, Debug, PartialEq, Eq, Structural)]
pub enum ChaosEventType {
    UIGlitch,
    InputCorruption,
    VisualDistortion,
    TimeWarp,
}

/// One synthetic fault event with its creation timestamp (a host clock
/// reading in thousandths of a millisecond).
#[derive(Clone, Copy, Debug, PartialEq, Eq, Structural)]
pub struct ChaosEvent {
    pub kind: ChaosEventKind,
    pub timestamp_micros: u64,
}

/// The category of an event payload.
pub open spec fn type_of(kind: ChaosEventKind) -> ChaosEventType {
    match kind {
        ChaosEventKind::UIGlitch { .. } => ChaosEventType::UIGlitch,
        ChaosEventKind::InputCorruption { .. } => ChaosEventType::InputCorruption,
        ChaosEventKind::VisualDistortion { .. } => ChaosEventType::VisualDistortion,
        ChaosEventKind::TimeWarp { .. } => ChaosEventType::TimeWarp,
    }
}

/// The range every event payload must lie in: severity and noise are
/// fractions of at most 1.0, a time warp never slows time down.
pub open spec fn event_wf(e: ChaosEvent) -> bool {
    match e.kind {
        ChaosEventKind::UIGlitch { element_id, severity_milli } => severity_milli <= 1000,
        ChaosEventKind::InputCorruption { delay_ms, noise_milli } => noise_milli <= 1000,
        ChaosEventKind::VisualDistortion { .. } => true,
        ChaosEventKind::TimeWarp { speed_multiplier_milli } => speed_multiplier_milli >= 1000,
    }
}

/// The event a generator state yields, and the state left behind: the first
/// draw picks the category uniformly over the four variants, further draws
/// fill the category's numeric fields from their uniform ranges.
#[verifier::opaque]
pub open spec fn spec_gen_event(state: u64, now_micros: u64) -> (ChaosEvent, u64) {
    let s1 = spec_rng_next(state);
    if s1 % 4 == 0 {
        let s2 = spec_rng_next(s1);
        let s3 = spec_rng_next(s2);
        (
            ChaosEvent {
                kind: ChaosEventKind::UIGlitch {
                    element_id: (s2 % 100) as u32,
                    severity_milli: (s3 % 1000) as u32,
                },
                timestamp_micros: now_micros,
            },
            s3,
        )
    } else if s1 % 4 == 1 {
        let s2 = spec_rng_next(s1);
        let s3 = spec_rng_next(s2);
        (
            ChaosEvent {
                kind: ChaosEventKind::InputCorruption {
                    delay_ms: (s2 % 500) as u32,
                    noise_milli: (s3 % 1000) as u32,
                },
                timestamp_micros: now_micros,
            },
            s3,
        )
    } else if s1 % 4 == 2 {
        (
            ChaosEvent {
                kind: ChaosEventKind::VisualDistortion { kind: DistortionKind::Glitch },
                timestamp_micros: now_micros,
            },
            s1,
        )
    } else {
        let s2 = spec_rng_next(s1);
        (
            ChaosEvent {
                kind: ChaosEventKind::TimeWarp {
                    speed_multiplier_milli: (1000 + s2 % 2000) as u32,
                },
                timestamp_micros: now_micros,
            },
            s2,
        )
    }
}

/// The batch a generator state yields: `count` events drawn in sequence, and
/// the state left behind.
pub open spec fn spec_gen_events(state: u64, now_micros: u64, count: nat) -> (Seq<ChaosEvent>, u64)
    decreases count,
{
    if count == 0 {
        (Seq::empty(), state)
    } else {
        let (event, mid) = spec_gen_event(state, now_micros);
        let (rest, end) = spec_gen_events(mid, now_micros, (count - 1) as nat);
        (seq![event] + rest, end)
    }
}

/// Drawing one more event extends the batch at its end.
#[verifier::rlimit(50)]
proof fn lemma_gen_events_snoc(state: u64, now_micros: u64, count: nat)
    requires
        count > 0,
    ensures
        spec_gen_events(state, now_micros, count).0 == spec_gen_events(
            state,
            now_micros,
            (count - 1) as nat,
        ).0.push(
            spec_gen_event(spec_gen_events(state, now_micros, (count - 1) as nat).1, now_micros).0,
        ),
        spec_gen_events(state, now_micros, count).1 == spec_gen_event(
            spec_gen_events(state, now_micros, (count - 1) as nat).1,
            now_micros,
        ).1,
    decreases count,
{
    let first = spec_gen_event(state, now_micros);
    let rest = spec_gen_events(first.1, now_micros, (count - 1) as nat);
    assert(spec_gen_events(state, now_micros, count) == (seq![first.0] + rest.0, rest.1));
    if count == 1 {
        assert(rest.0 =~= Seq::<ChaosEvent>::empty());
        assert(spec_gen_events(state, now_micros, 0) == (Seq::<ChaosEvent>::empty(), state));
        assert(seq![first.0] + rest.0 =~= spec_gen_events(state, now_micros, 0).0.push(first.0));
    } else {
        lemma_gen_events_snoc(first.1, now_micros, (count - 1) as nat);
        let prev = spec_gen_events(first.1, now_micros, (count - 2) as nat);
        assert(spec_gen_events(state, now_micros, (count - 1) as nat) == (
            seq![first.0] + prev.0,
            prev.1,
        ));
        assert(seq![first.0] + rest.0 =~= (seq![first.0] + prev.0).push(
            spec_gen_event(prev.1, now_micros).0,
        ));
    }
}

/// Draws one event and advances the generator.
fn gen_event(state: u64, now_micros: u64) -> (r: (ChaosEvent, u64))
    ensures
        r == spec_gen_event(state, now_micros),
        event_wf(r.0),
{
    proof {
        reveal(spec_gen_event);
    }
    let s1 = state.wrapping_mul(RNG_MULTIPLIER).wrapping_add(RNG_INCREMENT);
    let tag = s1 % 4;
    if tag == 0 {
        let s2 = s1.wrapping_mul(RNG_MULTIPLIER).wrapping_add(RNG_INCREMENT);
        let s3 = s2.wrapping_mul(RNG_MULTIPLIER).wrapping_add(RNG_INCREMENT);
        (
            ChaosEvent {
                kind: ChaosEventKind::UIGlitch {
                    element_id: (s2 % 100) as u32,
                    severity_milli: (s3 % 1000) as u32,
                },
                timestamp_micros: now_micros,
            },
            s3,
        )
    } else if tag == 1 {
        let s2 = s1.wrapping_mul(RNG_MULTIPLIER).wrapping_add(RNG_INCREMENT);
        let s3 = s2.wrapping_mul(RNG_MULTIPLIER).wrapping_add(RNG_INCREMENT);
        (
            ChaosEvent {
                kind: ChaosEventKind::InputCorruption {
                    delay_ms: (s2 % 500) as u32,
                    noise_milli: (s3 % 1000) as u32,
                },
                timestamp_micros: now_micros,
            },
            s3,
        )
    } else if tag == 2 {
        (
            ChaosEvent {
                kind: ChaosEventKind::VisualDistortion { kind: DistortionKind::Glitch },
                timestamp_micros: now_micros,
            },
            s1,
        )
    } else {
        let s2 = s1.wrapping_mul(RNG_MULTIPLIER).wrapping_add(RNG_INCREMENT);
        (
            ChaosEvent {
                kind: ChaosEventKind::TimeWarp {
                    speed_multiplier_milli: (1000 + s2 % 2000) as u32,
                },
                timestamp_micros: now_micros,
            },
            s2,
        )
    }
}

/// How many of the events fall in the given category.
pub open spec fn count_events_of(events: Seq<ChaosEvent>, t: ChaosEventType) -> int
    decreases events.len(),
{
    if events.len() == 0 {
        0
    } else {
        count_events_of(events.drop_last(), t) + if type_of(events.last().kind) == t {
            1int
        } else {
            0int
        }
    }
}

/// A category never counts more events than the log holds.
proof fn lemma_count_le_len(events: Seq<ChaosEvent>, t: ChaosEventType)
    ensures
        0 <= count_events_of(events, t) <= events.len(),
    decreases events.len(),
{
    if events.len() > 0 {
        lemma_count_le_len(events.drop_last(), t);
    }
}

/// An intensity clamped into `[INTENSITY_MIN, INTENSITY_MAX]`.
pub open spec fn clamped_intensity(level: u8) -> u8 {
    if level < INTENSITY_MIN {
        INTENSITY_MIN
    } else if level > INTENSITY_MAX {
        INTENSITY_MAX
    } else {
        level
    }
}

/// The elapsed time a rate is computed over: the time since the engine
/// started, at least one microsecond; a full second while the engine never
/// started (an accepted approximation that avoids a division by zero).
pub open spec fn spec_elapsed_micros(start: Option<u64>, now_micros: u64) -> int {
    match start {
        Option::None => 1000000,
        Option::Some(s) => if now_micros > s {
            now_micros - s
        } else {
            1int
        },
    }
}

/// The event rate in milli-events per second, saturating at the largest
/// `u64`: every event ever spawned, divided by the elapsed time.
pub open spec fn spec_events_per_second_milli(
    total_events: usize,
    start: Option<u64>,
    now_micros: u64,
) -> int {
    let q = total_events * 1000000000 / spec_elapsed_micros(start, now_micros);
    if q > 0xffff_ffff_ffff_ffff {
        0xffff_ffff_ffff_ffff
    } else {
        q
    }
}

/// Per-category counts and the event rate, derived from the engine state on
/// request.
#[derive(Clone, Debug)]
pub struct EventStats {
    /// How many events the log currently retains.
    pub total: usize,
    /// Each category that retained events fall in, with its count, sorted by
    /// descending count; categories with equal counts keep the fixed order
    /// ui-glitch, input-corruption, visual-distortion, time-warp.
    pub by_type: Vec<(ChaosEventType, usize)>,
    /// The rate every event ever spawned was produced at.
    pub events_per_second_milli: u64,
}

/// The display line of one event.
pub open spec fn display_text(e: ChaosEvent) -> Seq<char> {
    match e.kind {
        ChaosEventKind::UIGlitch { element_id, severity_milli } => "ui glitch: chaos-element-"@
            + dec_digits(element_id as nat) + " (severity-milli: "@ + dec_digits(
            severity_milli as nat,
        ) + ")"@,
        ChaosEventKind::InputCorruption { delay_ms, noise_milli } => "input corruption: "@
            + dec_digits(delay_ms as nat) + "ms (noise-milli: "@ + dec_digits(noise_milli as nat)
            + ")"@,
        ChaosEventKind::VisualDistortion { .. } => "visual distortion: glitch"@,
        ChaosEventKind::TimeWarp { speed_multiplier_milli } => "time warp: x"@ + dec_digits(
            speed_multiplier_milli as nat,
        ) + " milli"@,
    }
}

impl ChaosEvent {
    /// Renders the event as one display line.
    pub fn get_display_string(&self) -> (r: String)
        ensures
            r@ == display_text(*self),
    {
        let mut out = String::new();
        match &self.kind {
            ChaosEventKind::UIGlitch { element_id, severity_milli } => {
                out.append("ui glitch: chaos-element-");
                push_u64(&mut out, *element_id as u64);
                out.append(" (severity-milli: ");
                push_u64(&mut out, *severity_milli as u64);
                out.append(")");
            },
            ChaosEventKind::InputCorruption { delay_ms, noise_milli } => {
                out.append("input corruption: ");
                push_u64(&mut out, *delay_ms as u64);
                out.append("ms (noise-milli: ");
                push_u64(&mut out, *noise_milli as u64);
                out.append(")");
            },
            ChaosEventKind::VisualDistortion { .. } => {
                out.append("visual distortion: glitch");
            },
            ChaosEventKind::TimeWarp { speed_multiplier_milli } => {
                out.append("time warp: x");
                push_u64(&mut out, *speed_multiplier_milli as u64);
                out.append(" milli");
            },
        }
        proof {
            assert(out@ =~= display_text(*self));
        }
        out
    }
}

/// The chaos-event engine: `Idle -> Active` on `start`, `Active -> Idle` on
/// `stop`; the host drives `tick` on a fixed cadence while active. The
/// generator is seeded by the host at construction, so a session's event
/// stream is reproducible.
pub struct ChaosEngine {
    intensity: u8,
    events: BoundedSeries<ChaosEvent>,
    is_active: bool,
    total_events: usize,
    start_time_micros: Option<u64>,
    rng_state: u64,
}

impl ChaosEngine {
    /// The current intensity, always in `[INTENSITY_MIN, INTENSITY_MAX]`.
    pub closed spec fn intensity(&self) -> u8 {
        self.intensity
    }

    /// The retained event log, oldest first.
    pub closed spec fn events(&self) -> Seq<ChaosEvent> {
        self.events@
    }

    /// Whether the engine is in its `Active` state.
    pub closed spec fn is_active(&self) -> bool {
        self.is_active
    }

    /// Every event ever spawned, never decremented, even as the log evicts.
    pub closed spec fn total_events(&self) -> usize {
        self.total_events
    }

    /// The clock reading `start` last stored, if any.
    pub closed spec fn start_time(&self) -> Option<u64> {
        self.start_time_micros
    }

    /// The generator state the next spawn will draw from.
    pub closed spec fn rng(&self) -> u64 {
        self.rng_state
    }

    /// Well-formedness: the log is intact and bounded by 128 events, the
    /// intensity is clamped, every retained event is in range, and the
    /// all-time counter never undercounts the log.
    pub closed spec fn well_formed(&self) -> bool {
        &&& self.events.well_formed()
        &&& self.events.cap() == CHAOS_LOG_CAPACITY
        &&& INTENSITY_MIN <= self.intensity <= INTENSITY_MAX
        &&& self.total_events >= self.events@.len()
        &&& forall|i: int| 0 <= i < self.events@.len() ==> event_wf(#[trigger] self.events@[i])
    }

    /// A fresh idle engine with a clamped intensity and a host-chosen
    /// generator seed.
    pub fn new(intensity: u8, seed: u64) -> (s: Self)
        ensures
            s.well_formed(),
            s.intensity() == clamped_intensity(intensity),
            s.events() == Seq::<ChaosEvent>::empty(),
            !s.is_active(),
            s.total_events() == 0,
            s.start_time() is None,
            s.rng() == seed,
    {
        let clamped = if intensity < INTENSITY_MIN {
            INTENSITY_MIN
        } else if intensity > INTENSITY_MAX {
            INTENSITY_MAX
        } else {
            intensity
        };
        ChaosEngine {
            intensity: clamped,
            events: BoundedSeries::new(CHAOS_LOG_CAPACITY),
            is_active: false,
            total_events: 0,
            start_time_micros: None,
            rng_state: seed,
        }
    }

    /// The current intensity: how many events each tick spawns.
    pub fn current_intensity(&self) -> (level: u8)
        requires
            self.well_formed(),
        ensures
            level == self.intensity(),
            INTENSITY_MIN <= level <= INTENSITY_MAX,
    {
        self.intensity
    }

    /// Whether the engine is in its `Active` state.
    pub fn active(&self) -> (r: bool)
        ensures
            r == self.is_active(),
    {
        self.is_active
    }

    /// Every event ever spawned, never decremented, even as the log evicts.
    pub fn total_spawned(&self) -> (n: usize)
        ensures
            n == self.total_events(),
    {
        self.total_events
    }

    /// How many events the log currently retains; at most
    /// `CHAOS_LOG_CAPACITY`.
    pub fn event_count(&self) -> (n: usize)
        ensures
            n == self.events().len(),
    {
        self.events.len()
    }

    /// The `i`-th retained event, oldest first.
    pub fn get_event(&self, i: usize) -> (e: &ChaosEvent)
        requires
            i < self.events().len(),
        ensures
            *e == self.events()[i as int],
    {
        self.events.get(i)
    }

    /// `Idle -> Active`; stores the start time the event rate is measured
    /// from.
    pub fn start(&mut self, now_micros: u64)
        requires
            old(self).well_formed(),
        ensures
            final(self).well_formed(),
            final(self).is_active(),
            final(self).start_time() == Some(now_micros),
            final(self).intensity() == old(self).intensity(),
            final(self).events() == old(self).events(),
            final(self).total_events() == old(self).total_events(),
            final(self).rng() == old(self).rng(),
    {
        self.is_active = true;
        self.start_time_micros = Some(now_micros);
    }

    /// `Active -> Idle`. The start time and the log are kept.
    pub fn stop(&mut self)
        requires
            old(self).well_formed(),
        ensures
            final(self).well_formed(),
            !final(self).is_active(),
            final(self).start_time() == old(self).start_time(),
            final(self).intensity() == old(self).intensity(),
            final(self).events() == old(self).events(),
            final(self).total_events() == old(self).total_events(),
            final(self).rng() == old(self).rng(),
    {
        self.is_active = false;
    }

    /// Sets the intensity, clamped into `[INTENSITY_MIN, INTENSITY_MAX]`.
    pub fn set_intensity(&mut self, level: u8)
        requires
            old(self).well_formed(),
        ensures
            final(self).well_formed(),
            final(self).intensity() == clamped_intensity(level),
            final(self).is_active() == old(self).is_active(),
            final(self).events() == old(self).events(),
            final(self).total_events() == old(self).total_events(),
            final(self).start_time() == old(self).start_time(),
            final(self).rng() == old(self).rng(),
    {
        self.intensity = if level < INTENSITY_MIN {
            INTENSITY_MIN
        } else if level > INTENSITY_MAX {
            INTENSITY_MAX
        } else {
            level
        };
    }

    /// Appends one caller-built event to the log (evicting the oldest when
    /// full) and counts it.
    pub fn add_event(&mut self, event: ChaosEvent)
        requires
            old(self).well_formed(),
            event_wf(event),
            old(self).total_events() < usize::MAX,
        ensures
            final(self).well_formed(),
            final(self).events() == retained(
                old(self).events().push(event),
                CHAOS_LOG_CAPACITY as nat,
            ),
            final(self).total_events() == old(self).total_events() + 1,
            final(self).intensity() == old(self).intensity(),
            final(self).is_active() == old(self).is_active(),
            final(self).start_time() == old(self).start_time(),
            final(self).rng() == old(self).rng(),
    {
        let ghost e0 = self.events@;
        self.events.push(event);
        self.total_events = self.total_events + 1;
        proof {
            assert(self.events@ =~= retained(e0.push(event), CHAOS_LOG_CAPACITY as nat));
        }
    }

    /// Spawns `count` events from the generator as one batch: the log grows
    /// by the batch and is trimmed once to its capacity, and the all-time
    /// counter grows by `count` regardless of eviction.
    pub fn spawn_batch_events(&mut self, count: usize, now_micros: u64)
        requires
            old(self).well_formed(),
            old(self).total_events() + count <= usize::MAX,
        ensures
            final(self).well_formed(),
            final(self).total_events() == old(self).total_events() + count,
            final(self).events() == retained(
                old(self).events() + spec_gen_events(old(self).rng(), now_micros, count as nat).0,
                CHAOS_LOG_CAPACITY as nat,
            ),
            final(self).events().len() == if old(self).events().len() + count
                <= CHAOS_LOG_CAPACITY {
                old(self).events().len() + count
            } else {
                CHAOS_LOG_CAPACITY as int
            },
            final(self).rng() == spec_gen_events(old(self).rng(), now_micros, count as nat).1,
            final(self).intensity() == old(self).intensity(),
            final(self).is_active() == old(self).is_active(),
            final(self).start_time() == old(self).start_time(),
    {
        let ghost seed0 = self.rng_state;
        let mut state: u64 = self.rng_state;
        let mut batch: Vec<ChaosEvent> = Vec::new();
        let mut i: usize = 0;
        proof {
            assert(batch@ =~= spec_gen_events(seed0, now_micros, 0).0);
        }
        while i < count
            invariant
                i <= count,
                batch@.len() == i,
                batch@ == spec_gen_events(seed0, now_micros, i as nat).0,
                state == spec_gen_events(seed0, now_micros, i as nat).1,
                forall|j: int| 0 <= j < i ==> event_wf(#[trigger] batch@[j]),
            decreases count - i,
        {
            let (event, next_state) = gen_event(state, now_micros);
            state = next_state;
            batch.push(event);
            proof {
                lemma_gen_events_snoc(seed0, now_micros, (i + 1) as nat);
            }
            i = i + 1;
        }
        self.rng_state = state;
        let ghost e0 = self.events@;
        let ghost b = batch@;
        self.events.push_batch(batch);
        self.total_events = self.total_events + count;
        proof {
            crate::bounded::lemma_retained_len(e0 + b, CHAOS_LOG_CAPACITY as nat);
            crate::bounded::lemma_retained_is_recent_suffix(e0 + b, CHAOS_LOG_CAPACITY as nat);
            assert forall|j: int| 0 <= j < self.events@.len() implies event_wf(
                #[trigger] self.events@[j],
            ) by {
                let w = retained(e0 + b, CHAOS_LOG_CAPACITY as nat);
                let src = (e0 + b).len() - w.len() + j;
                assert(self.events@[j] == (e0 + b)[src]);
                if src < e0.len() {
                    assert(event_wf(e0[src]));
                } else {
                    assert(event_wf(b[src - e0.len()]));
                }
            }
        }
    }

    /// One cadence step of the host loop: spawns one batch of `intensity`
    /// events while the engine is active, and does nothing while idle.
    pub fn tick(&mut self, now_micros: u64)
        requires
            old(self).well_formed(),
            old(self).total_events() + INTENSITY_MAX as int <= usize::MAX,
        ensures
            final(self).well_formed(),
            old(self).is_active() ==> final(self).total_events() == old(self).total_events()
                + old(self).intensity(),
            old(self).is_active() ==> final(self).events() == retained(
                old(self).events() + spec_gen_events(
                    old(self).rng(),
                    now_micros,
                    old(self).intensity() as nat,
                ).0,
                CHAOS_LOG_CAPACITY as nat,
            ),
            old(self).is_active() ==> final(self).rng() == spec_gen_events(
                old(self).rng(),
                now_micros,
                old(self).intensity() as nat,
            ).1,
            !old(self).is_active() ==> *final(self) == *old(self),
            final(self).intensity() == old(self).intensity(),
            final(self).is_active() == old(self).is_active(),
            final(self).start_time() == old(self).start_time(),
    {
        if self.is_active {
            let level = self.intensity;
            self.spawn_batch_events(level as usize, now_micros);
        }
    }

    /// The extreme stress test: atomically raises the engine to intensity 3,
    /// activates it, and spawns a fixed large batch in one call, exercising
    /// the log's eviction path deterministically.
    pub fn run_extreme_test(&mut self, now_micros: u64)
        requires
            old(self).well_formed(),
            old(self).total_events() + CHAOS_LEVEL_3_EVENT_COUNT as int <= usize::MAX,
        ensures
            final(self).well_formed(),
            final(self).intensity() == 3,
            final(self).is_active(),
            final(self).total_events() == old(self).total_events() + CHAOS_LEVEL_3_EVENT_COUNT,
            final(self).events() == retained(
                old(self).events() + spec_gen_events(
                    old(self).rng(),
                    now_micros,
                    CHAOS_LEVEL_3_EVENT_COUNT as nat,
                ).0,
                CHAOS_LOG_CAPACITY as nat,
            ),
            final(self).events().len() == CHAOS_LOG_CAPACITY,
            final(self).start_time() == old(self).start_time(),
    {
        self.intensity = 3;
        self.is_active = true;
        self.spawn_batch_events(CHAOS_LEVEL_3_EVENT_COUNT, now_micros);
    }

    /// Derives the per-category counts (descending, omitting empty
    /// categories) and the event rate from the current state. `now_micros`
    /// is the host clock reading the elapsed time is measured against.
    pub fn event_stats(&self, now_micros: u64) -> (r: EventStats)
        requires
            self.well_formed(),
        ensures
            r.total == self.events().len(),
            r.events_per_second_milli == spec_events_per_second_milli(
                self.total_events(),
                self.start_time(),
                now_micros,
            ),
            forall|j: int|
                0 <= j < r.by_type@.len() ==> (#[trigger] r.by_type@[j]).1 == count_events_of(
                    self.events(),
                    r.by_type@[j].0,
                ) && r.by_type@[j].1 > 0,
            forall|t: ChaosEventType|
                count_events_of(self.events(), t) > 0 ==> exists|j: int|
                    0 <= j < r.by_type@.len() && (#[trigger] r.by_type@[j]).0 == t,
            forall|j1: int, j2: int|
                0 <= j1 < j2 < r.by_type@.len() ==> (#[trigger] r.by_type@[j1]).1 >= (
                #[trigger] r.by_type@[j2]).1,
            forall|j1: int, j2: int|
                0 <= j1 < j2 < r.by_type@.len() ==> (#[trigger] r.by_type@[j1]).0 != (
                #[trigger] r.by_type@[j2]).0,
    {
        let total = self.events.len();
        let by_type = self.categorize_events();
        let events_per_second_milli = self.events_per_second_milli(now_micros);
        let ghost bt = by_type@;
        let result = EventStats { total, by_type, events_per_second_milli };
        proof {
            assert(result.by_type@ == bt);
            assert forall|t: ChaosEventType|
                count_events_of(self.events(), t) > 0 implies exists|j: int|
                0 <= j < result.by_type@.len() && (#[trigger] result.by_type@[j]).0 == t by {
                let j0 = choose|j: int| 0 <= j < bt.len() && (#[trigger] bt[j]).0 == t;
                assert(0 <= j0 < result.by_type@.len() && result.by_type@[j0].0 == t);
            }
        }
        result
    }

    /// Counts the retained events per category, sorted by descending count;
    /// categories without events are omitted.
    fn categorize_events(&self) -> (r: Vec<(ChaosEventType, usize)>)
        requires
            self.well_formed(),
        ensures
            forall|j: int|
                0 <= j < r@.len() ==> (#[trigger] r@[j]).1 == count_events_of(
                    self.events(),
                    r@[j].0,
                ) && r@[j].1 > 0,
            forall|t: ChaosEventType|
                count_events_of(self.events(), t) > 0 ==> exists|j: int|
                    0 <= j < r@.len() && (#[trigger] r@[j]).0 == t,
            forall|j1: int, j2: int|
                0 <= j1 < j2 < r@.len() ==> (#[trigger] r@[j1]).1 >= (#[trigger] r@[j2]).1,
            forall|j1: int, j2: int|
                0 <= j1 < j2 < r@.len() ==> (#[trigger] r@[j1]).0 != (#[trigger] r@[j2]).0,
    {
        let len = self.events.len();
        let mut count_ui: usize = 0;
        let mut count_ic: usize = 0;
        let mut count_vd: usize = 0;
        let mut count_tw: usize = 0;
        let mut i: usize = 0;
        while i < len
            invariant
                i <= len,
                len == self.events().len(),
                self.well_formed(),
                count_ui == count_events_of(self.events().take(i as int), ChaosEventType::UIGlitch),
                count_ic == count_events_of(
                    self.events().take(i as int),
                    ChaosEventType::InputCorruption,
                ),
                count_vd == count_events_of(
                    self.events().take(i as int),
                    ChaosEventType::VisualDistortion,
                ),
                count_tw == count_events_of(self.events().take(i as int), ChaosEventType::TimeWarp),
                count_ui <= i && count_ic <= i && count_vd <= i && count_tw <= i,
            decreases len - i,
        {
            proof {
                assert(self.events().take(i as int + 1).drop_last() =~= self.events().take(
                    i as int,
                ));
            }
            let event = self.events.get(i);
            match &event.kind {
                ChaosEventKind::UIGlitch { .. } => {
                    count_ui = count_ui + 1;
                },
                ChaosEventKind::InputCorruption { .. } => {
                    count_ic = count_ic + 1;
                },
                ChaosEventKind::VisualDistortion { .. } => {
                    count_vd = count_vd + 1;
                },
                ChaosEventKind::TimeWarp { .. } => {
                    count_tw = count_tw + 1;
                },
            }
            i = i + 1;
        }
        proof {
            assert(self.events().take(len as int) =~= self.events());
            lemma_count_le_len(self.events(), ChaosEventType::UIGlitch);
            lemma_count_le_len(self.events(), ChaosEventType::InputCorruption);
            lemma_count_le_len(self.events(), ChaosEventType::VisualDistortion);
            lemma_count_le_len(self.events(), ChaosEventType::TimeWarp);
        }
        let mut pairs: Vec<(ChaosEventType, usize)> = Vec::new();
        let mut level: usize = len;
        while level >= 1
            invariant
                level <= len,
                len == self.events().len(),
                count_ui == count_events_of(self.events(), ChaosEventType::UIGlitch),
                count_ic == count_events_of(self.events(), ChaosEventType::InputCorruption),
                count_vd == count_events_of(self.events(), ChaosEventType::VisualDistortion),
                count_tw == count_events_of(self.events(), ChaosEventType::TimeWarp),
                count_ui <= len && count_ic <= len && count_vd <= len && count_tw <= len,
                forall|j: int|
                    0 <= j < pairs@.len() ==> (#[trigger] pairs@[j]).1 == count_events_of(
                        self.events(),
                        pairs@[j].0,
                    ) && pairs@[j].1 > level,
                forall|t: ChaosEventType|
                    count_events_of(self.events(), t) > level ==> exists|j: int|
                        0 <= j < pairs@.len() && (#[trigger] pairs@[j]).0 == t,
                forall|j1: int, j2: int|
                    0 <= j1 < j2 < pairs@.len() ==> (#[trigger] pairs@[j1]).1 >= (
                    #[trigger] pairs@[j2]).1,
                forall|j1: int, j2: int|
                    0 <= j1 < j2 < pairs@.len() ==> (#[trigger] pairs@[j1]).0 != (
                    #[trigger] pairs@[j2]).0,
            decreases level,
        {
            let ghost pairs0 = pairs@;
            if count_ui == level {
                pairs.push((ChaosEventType::UIGlitch, level));
            }
            if count_ic == level {
                pairs.push((ChaosEventType::InputCorruption, level));
            }
            if count_vd == level {
                pairs.push((ChaosEventType::VisualDistortion, level));
            }
            if count_tw == level {
                pairs.push((ChaosEventType::TimeWarp, level));
            }
            proof {
                let n0 = pairs0.len() as int;
                let after_ui: int = if count_ui == level {
                    n0 + 1
                } else {
                    n0
                };
                let after_ic: int = if count_ic == level {
                    after_ui + 1
                } else {
                    after_ui
                };
                if count_ui == level {
                    assert(pairs@[n0].0 == ChaosEventType::UIGlitch);
                }
                if count_ic == level {
                    assert(pairs@[after_ui].0 == ChaosEventType::InputCorruption);
                }
                if count_vd == level {
                    assert(pairs@[after_ic].0 == ChaosEventType::VisualDistortion);
                }
                if count_tw == level {
                    assert(pairs@[pairs@.len() - 1].0 == ChaosEventType::TimeWarp);
                }
                assert forall|t: ChaosEventType|
                    count_events_of(self.events(), t) > level - 1 implies exists|j: int|
                    0 <= j < pairs@.len() && (#[trigger] pairs@[j]).0 == t by {
                    if count_events_of(self.events(), t) > level {
                        let j0 = choose|j: int|
                            0 <= j < pairs0.len() && (#[trigger] pairs0[j]).0 == t;
                        assert(pairs@[j0] == pairs0[j0]);
                    } else {
                        match t {
                            ChaosEventType::UIGlitch => {
                                assert(pairs@[n0].0 == t);
                            },
                            ChaosEventType::InputCorruption => {
                                assert(pairs@[after_ui].0 == t);
                            },
                            ChaosEventType::VisualDistortion => {
                                assert(pairs@[after_ic].0 == t);
                            },
                            ChaosEventType::TimeWarp => {
                                assert(pairs@[pairs@.len() - 1].0 == t);
                            },
                        }
                    }
                }
            }
            level = level - 1;
        }
        pairs
    }

    /// The event rate in milli-events per second, measured over the time
    /// since `start` (or over one second while the engine never started),
    /// saturating at the largest `u64`.
    fn events_per_second_milli(&self, now_micros: u64) -> (r: u64)
        ensures
            r == spec_events_per_second_milli(self.total_events(), self.start_time(), now_micros),
    {
        let elapsed: u64 = match self.start_time_micros {
            None => 1000000,
            Some(s) => if now_micros > s {
                now_micros - s
            } else {
                1
            },
        };
        let scaled = (self.total_events as u128) * 1000000000u128 / (elapsed as u128);
        if scaled > 0xffff_ffff_ffff_ffffu128 {
            0xffff_ffff_ffff_ffffu64
        } else {
            scaled as u64
        }
    }
}

/// Law: however many events are spawned, the log never outgrows its capacity,
/// and the all-time counter never undercounts the log.
pub proof fn lemma_log_stays_bounded(engine: ChaosEngine)
    requires
        engine.well_formed(),
    ensures
        engine.events().len() <= CHAOS_LOG_CAPACITY,
        engine.total_events() >= engine.events().len(),
{
    crate::bounded::lemma_well_formed_len_bounded(&engine.events);
}

} // verus!
