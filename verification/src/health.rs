//! Health metrics.
//!
//! The counters live in an explicit metrics value owned by the server
//! process and passed where they are needed; there is no ambient global
//! state.

use vstd::prelude::*;

verus! {

/// Request and error counters.
#[derive(Debug, Clone, Copy, PartialEq, Eq, Structural)]
pub struct HealthMetrics {
    pub request_count: u64,
    pub error_count: u64,
}

/// Fresh metrics with both counters at zero.
pub fn init_health_metrics() -> (m: HealthMetrics)
    ensures
        m.request_count == 0,
        m.error_count == 0,
{
    HealthMetrics { request_count: 0, error_count: 0 }
}

/// Counts one request; the counter wraps at its maximum.
pub fn increment_request_count(m: &mut HealthMetrics)
    ensures
        final(m).request_count == if old(m).request_count == u64::MAX {
            0u64
        } else {
            (old(m).request_count + 1) as u64
        },
        final(m).error_count == old(m).error_count,
{
    if m.request_count == u64::MAX {
        m.request_count = 0;
    } else {
        m.request_count = m.request_count + 1;
    }
}

/// Counts one error; the counter wraps at its maximum.
pub fn increment_error_count(m: &mut HealthMetrics)
    ensures
        final(m).error_count == if old(m).error_count == u64::MAX {
            0u64
        } else {
            (old(m).error_count + 1) as u64
        },
        final(m).request_count == old(m).request_count,
{
    if m.error_count == u64::MAX {
        m.error_count = 0;
    } else {
        m.error_count = m.error_count + 1;
    }
}

} // verus!
