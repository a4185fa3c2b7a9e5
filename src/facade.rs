use vstd::prelude::*;

use crate::format::{format_record, line_of, max_nat, FormatState, Level};
use crate::retry::RetryPolicy;
use crate::ship::Shipper;

verus! {

/// First backoff delay of both policies.
pub const BASE_DELAY_MS: u64 = 1000;

/// Cap on the backoff delay of both policies.
pub const MAX_DELAY_MS: u64 = 60000;

/// Retries of a whole describe-then-append pass.
pub const OUTER_MAX_RETRIES: u32 = 4;

/// Retries of one describe inside a pass.
pub const INNER_MAX_RETRIES: u32 = 10;

/// The log sink: renders each record for the terminal and hands the same line
/// to a new shipping sequence, which the caller runs without waiting for it.
pub struct LogFacade {
    pub state: FormatState,
    pub outer: RetryPolicy,
    pub inner: RetryPolicy,
}

impl LogFacade {
    /// A sink with a fresh width state and the default policies.
    pub fn new() -> (r: LogFacade)
        ensures
            r.state.max_tag_width == 0,
            r.outer == (RetryPolicy {
                base_delay_ms: BASE_DELAY_MS,
                max_delay_ms: MAX_DELAY_MS,
                max_retries: OUTER_MAX_RETRIES,
            }),
            r.inner == (RetryPolicy {
                base_delay_ms: BASE_DELAY_MS,
                max_delay_ms: MAX_DELAY_MS,
                max_retries: INNER_MAX_RETRIES,
            }),
    {
        LogFacade {
            state: FormatState::new(),
            outer: RetryPolicy::exponential(BASE_DELAY_MS, MAX_DELAY_MS, OUTER_MAX_RETRIES),
            inner: RetryPolicy::exponential(BASE_DELAY_MS, MAX_DELAY_MS, INNER_MAX_RETRIES),
        }
    }

    /// Takes one record: returns the terminal line and the sequence that ships
    /// that same line, stamped with `timestamp` (milliseconds since the epoch).
    pub fn on_record(&mut self, level: Level, tag: &str, message: &str, timestamp: i64) -> (r: (
        String,
        Shipper,
    ))
        ensures
            final(self).outer == old(self).outer,
            final(self).inner == old(self).inner,
            final(self).state.max_tag_width as nat == max_nat(
                old(self).state.max_tag_width as nat,
                tag@.len(),
            ),
            r.0@ == line_of(level, tag@, final(self).state.max_tag_width as nat, message@),
            r.1.wf(),
            r.1.message@ == r.0@,
            r.1.timestamp == timestamp,
            r.1.outer == old(self).outer,
            r.1.inner == old(self).inner,
            r.1.phase == crate::ship::Phase::Describing,
            r.1.outer_failures == 0,
            r.1.inner_failures == 0,
    {
        let line = format_record(&mut self.state, level, tag, message);
        let shipped = line.clone();
        (line, Shipper::new(self.outer, self.inner, shipped, timestamp))
    }
}

/// Relies on chrono's `Utc::now` and `DateTime::timestamp_millis` for the
/// current time in milliseconds since the Unix epoch; nothing is promised of it.
#[verifier::external_body]
fn now_millis() -> (r: i64) {
    chrono::Utc::now().timestamp_millis()
}

impl LogFacade {
    /// Takes one record as `on_record` does, stamped with the current time.
    pub fn log(&mut self, level: Level, tag: &str, message: &str) -> (r: (String, Shipper))
        ensures
            final(self).outer == old(self).outer,
            final(self).inner == old(self).inner,
            final(self).state.max_tag_width as nat == max_nat(
                old(self).state.max_tag_width as nat,
                tag@.len(),
            ),
            r.0@ == line_of(level, tag@, final(self).state.max_tag_width as nat, message@),
            r.1.wf(),
            r.1.message@ == r.0@,
            r.1.outer == old(self).outer,
            r.1.inner == old(self).inner,
            r.1.phase == crate::ship::Phase::Describing,
            r.1.outer_failures == 0,
            r.1.inner_failures == 0,
    {
        let timestamp = now_millis();
        self.on_record(level, tag, message, timestamp)
    }
}

} // verus!
