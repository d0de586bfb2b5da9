//! The initial-load performance report: derived figures over the page-load
//! timing values the host reads from its environment, and the fixed-layout
//! text report with its load-time verdict. All values are in milliseconds.

use vstd::prelude::*;

use crate::numfmt::dec_digits;
use crate::numfmt::push_u64;

verus! {

/// Total load times under this many milliseconds meet the load target
/// (sized for a 4G connection).
pub const LOAD_TARGET_MS: u64 = 3000;

/// The time from `start` to `end`, or 0 when the clock readings are out of
/// order (a missing or degenerate timing value).
pub open spec fn elapsed_between(start: u64, end: u64) -> u64 {
    if end > start {
        (end - start) as u64
    } else {
        0
    }
}

/// The total load time: the span from navigation start to load completion,
/// or the current clock reading while the load has not completed yet
/// (a load-complete value of 0 means "not recorded").
pub open spec fn spec_total_load_time(navigation_start: u64, load_complete: u64, now: u64) -> u64 {
    if load_complete > 0 {
        elapsed_between(navigation_start, load_complete)
    } else {
        now
    }
}

/// One page load's timing values, in milliseconds.
#[derive(Clone, Copy, Debug, PartialEq, Eq, Structural)]
pub struct LoadMetrics {
    pub navigation_start: u64,
    pub dom_content_loaded: u64,
    pub load_complete: u64,
    pub wasm_init_start: u64,
    pub wasm_init_complete: u64,
    pub first_contentful_paint: u64,
    pub total_load_time: u64,
}

/// The report text for one set of load metrics.
pub open spec fn load_report_text(m: LoadMetrics) -> Seq<char> {
    "=== initial load performance report ===\n"@ + "DOM Content Loaded: "@ + dec_digits(
        elapsed_between(m.navigation_start, m.dom_content_loaded) as nat,
    ) + "ms\n"@ + "First Contentful Paint: "@ + dec_digits(m.first_contentful_paint as nat)
        + "ms\n"@ + "Page Load Complete: "@ + dec_digits(
        elapsed_between(m.navigation_start, m.load_complete) as nat,
    ) + "ms\n"@ + "WASM Init Time: "@ + dec_digits(
        elapsed_between(m.wasm_init_start, m.wasm_init_complete) as nat,
    ) + "ms\n"@ + "Total Load Time: "@ + dec_digits(m.total_load_time as nat) + "ms\n"@ + "\n"@
        + "target on a 4G connection: < 3000ms\n"@ + "current status: "@ + (if m.total_load_time
        < LOAD_TARGET_MS {
        "target met"@
    } else {
        "target missed"@
    })
}

impl LoadMetrics {
    /// Assembles the metrics from the host's timing readings: navigation
    /// start, DOM-content-loaded and load-complete from navigation timing,
    /// the first-contentful-paint mark (0 when unavailable), and the current
    /// clock reading, which doubles as the moment initialization completed.
    pub fn new(
        navigation_start: u64,
        dom_content_loaded: u64,
        load_complete: u64,
        first_contentful_paint: u64,
        now: u64,
    ) -> (m: LoadMetrics)
        ensures
            m.navigation_start == navigation_start,
            m.dom_content_loaded == dom_content_loaded,
            m.load_complete == load_complete,
            m.first_contentful_paint == first_contentful_paint,
            m.wasm_init_start == 0,
            m.wasm_init_complete == now,
            m.total_load_time == spec_total_load_time(navigation_start, load_complete, now),
    {
        let total_load_time = if load_complete > 0 {
            if load_complete > navigation_start {
                load_complete - navigation_start
            } else {
                0
            }
        } else {
            now
        };
        LoadMetrics {
            navigation_start,
            dom_content_loaded,
            load_complete,
            wasm_init_start: 0,
            wasm_init_complete: now,
            first_contentful_paint,
            total_load_time,
        }
    }

    /// Whether the total load time met the target, boundary exclusive.
    pub fn meets_load_target(&self) -> (r: bool)
        ensures
            r == (self.total_load_time < LOAD_TARGET_MS),
    {
        self.total_load_time < LOAD_TARGET_MS
    }

    /// Renders the metrics as a fixed-layout text report with the verdict.
    pub fn get_formatted_report(&self) -> (r: String)
        ensures
            r@ == load_report_text(*self),
    {
        let mut out = String::new();
        out.append("=== initial load performance report ===\n");
        out.append("DOM Content Loaded: ");
        push_u64(&mut out, elapsed_ms(self.navigation_start, self.dom_content_loaded));
        out.append("ms\n");
        out.append("First Contentful Paint: ");
        push_u64(&mut out, self.first_contentful_paint);
        out.append("ms\n");
        out.append("Page Load Complete: ");
        push_u64(&mut out, elapsed_ms(self.navigation_start, self.load_complete));
        out.append("ms\n");
        out.append("WASM Init Time: ");
        push_u64(&mut out, elapsed_ms(self.wasm_init_start, self.wasm_init_complete));
        out.append("ms\n");
        out.append("Total Load Time: ");
        push_u64(&mut out, self.total_load_time);
        out.append("ms\n");
        out.append("\n");
        out.append("target on a 4G connection: < 3000ms\n");
        out.append("current status: ");
        if self.total_load_time < LOAD_TARGET_MS {
            out.append("target met");
        } else {
            out.append("target missed");
        }
        proof {
            assert(out@ =~= load_report_text(*self));
        }
        out
    }
}

/// The time from `start` to `end`, or 0 when the readings are out of order.
fn elapsed_ms(start: u64, end: u64) -> (r: u64)
    ensures
        r == elapsed_between(start, end),
{
    if end > start {
        end - start
    } else {
        0
    }
}

} // verus!
