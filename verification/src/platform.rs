//! What the engine asks of the machine it runs on. Nothing here is proved:
//! each item states what the called crate documents, and the rest of the
//! library is verified against these statements.

use rand::Rng;
use vstd::prelude::*;

verus! {

/// `num_cpus::get`: the number of logical cores available to this process.
/// The crate documents that the count is never below one; nothing else is
/// claimed of it, and two calls may differ.
pub assume_specification[ num_cpus::get ]() -> (cores: usize)
    ensures
        cores >= 1,
;

/// `sys_info::mem_info`, reduced to the total physical memory in kilobytes,
/// or `None` when the query fails. The value is the machine's own; nothing is
/// claimed of it. On Linux the crate reads `/proc/meminfo`; on a kernel that
/// does not list `MemAvailable` it adds and subtracts other entries of that
/// file with unchecked arithmetic.
#[verifier::external_body]
pub(crate) fn total_memory_kb() -> Option<u64> {
    match sys_info::mem_info() {
        Ok(info) => Some(info.total),
        Err(_) => None,
    }
}

/// `rand::Rng::gen_range` on the thread-local generator `rand::thread_rng`,
/// over the half-open range `low..high`. The crate documents that the value
/// lies in the range and that an empty range panics, so `low < high` is
/// required. Which value comes back is left open. The generator seeds itself
/// from the operating system on first use in a thread and again after
/// every so many bytes, and panics at either point if the system has no
/// randomness to give.
#[verifier::external_body]
pub(crate) fn random_octet(low: u8, high: u8) -> (r: u8)
    requires
        low < high,
    ensures
        low <= r < high,
{
    rand::thread_rng().gen_range(low..high)
}

/// `chrono::Utc::now` followed by `DateTime::timestamp_millis`: the wall
/// clock as milliseconds since the start of 1970 (UTC). Nothing is claimed
/// of the value; the clock may even step backwards between two calls. The
/// crate panics if the system clock is set before 1970.
#[verifier::external_body]
pub(crate) fn current_millis() -> i64 {
    chrono::Utc::now().timestamp_millis()
}

} // verus!
