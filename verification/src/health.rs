//! The health prober: what the runtime's answer to an inspection says about
//! one instance.
//!
//! Probing is advisory. An inspection that could not be carried out, or that
//! ended in failure, says that the instance has no health check and is not
//! healthy; it is never an error.

use crate::gateway::{Report, ReportView};
use crate::text::{contains, has_substring, occurs_at};
use vstd::prelude::*;

verus! {

/// The status text names the instance healthy: it holds `healthy` and does
/// not hold `unhealthy`. Both are asked, since `unhealthy` holds `healthy`.
pub open spec fn status_is_healthy(status: Seq<char>) -> bool {
    has_substring(status, "healthy"@) && !has_substring(status, "unhealthy"@)
}

/// The health state is a health object, not the empty state of an instance
/// without a health check: it holds the field `Status`.
pub open spec fn health_is_defined(health: Seq<char>) -> bool {
    has_substring(health, "Status"@)
}

/// The inspection was carried out and did not fail.
pub open spec fn inspected(report: ReportView) -> bool {
    report.ran && report.success
}

/// The report of a status inspection shows a healthy instance.
pub open spec fn reports_healthy(report: ReportView) -> bool {
    inspected(report) && status_is_healthy(report.stdout)
}

/// The report of a health inspection shows an instance with a health check.
pub open spec fn reports_health_check(report: ReportView) -> bool {
    inspected(report) && health_is_defined(report.stdout)
}

/// Whether the status text names the instance healthy.
pub fn is_healthy(status: &str) -> (healthy: bool)
    ensures
        healthy == status_is_healthy(status@),
{
    !contains(status, "unhealthy") && contains(status, "healthy")
}

/// Whether the health state text is that of an instance with a health check.
pub fn has_health_check(health: &str) -> (defined: bool)
    ensures
        defined == health_is_defined(health@),
{
    contains(health, "Status")
}

/// Whether the report of a status inspection shows a healthy instance.
pub fn report_is_healthy(report: &Report) -> (healthy: bool)
    ensures
        healthy == reports_healthy(report@),
{
    report.ran && report.success && is_healthy(report.stdout.as_str())
}

/// Whether the report of a health inspection shows an instance with a health
/// check.
pub fn report_has_health_check(report: &Report) -> (defined: bool)
    ensures
        defined == reports_health_check(report@),
{
    report.ran && report.success && has_health_check(report.stdout.as_str())
}

/// The status `healthy` is healthy, the status `unhealthy` is not, and no
/// status text that holds `unhealthy` is healthy, though each of them holds
/// `healthy`.
pub proof fn law_unhealthy_is_not_healthy(status: Seq<char>)
    ensures
        status_is_healthy("healthy"@),
        !status_is_healthy("unhealthy"@),
        has_substring(status, "unhealthy"@) ==> has_substring(status, "healthy"@),
        has_substring(status, "unhealthy"@) ==> !status_is_healthy(status),
{
    reveal_strlit("healthy");
    reveal_strlit("unhealthy");
    let healthy = "healthy"@;
    let unhealthy = "unhealthy"@;
    assert(healthy.subrange(0, 7) =~= healthy);
    assert(occurs_at(healthy, healthy, 0));
    assert(unhealthy.subrange(0, 9) =~= unhealthy);
    assert(occurs_at(unhealthy, unhealthy, 0));
    if has_substring(status, unhealthy) {
        let at = choose|at: int| occurs_at(status, unhealthy, at);
        let window = status.subrange(at, at + 9);
        assert(status.subrange(at + 2, at + 9) =~= window.subrange(2, 9));
        assert(unhealthy.subrange(2, 9) =~= healthy);
        assert(occurs_at(status, healthy, at + 2));
    }
}

} // verus!
