//! Fixed-capacity buffers that a runtime fills with the entries of a report.
//!
//! The caller offers a buffer of `TRACE_CAPACITY` entries. The runtime fills
//! it from the front and says how many entries the report has. A report with
//! more entries than the buffer holds is cut, and nothing says so.
use vstd::prelude::*;

verus! {

/// Entries in a buffer that is offered for a trace.
pub const TRACE_CAPACITY: usize = 1024;

/// How many entries of a report with `count` entries a buffer of `capacity`
/// entries holds.
pub open spec fn spec_kept_entries(capacity: usize, count: usize) -> usize {
    if count < capacity {
        count
    } else {
        capacity
    }
}

/// How many entries of a report with `count` entries a buffer of `capacity`
/// entries holds.
#[verifier::when_used_as_spec(spec_kept_entries)]
pub fn kept_entries(capacity: usize, count: usize) -> (kept: usize)
    ensures
        kept == spec_kept_entries(capacity, count),
{
    if count < capacity {
        count
    } else {
        capacity
    }
}

/// Copies the entries that the runtime filled into a vector that the caller
/// owns: the first `count` entries of `buffer`, or all of `buffer` where the
/// report had more.
pub fn owned_entries<T: Copy>(buffer: &[T], count: usize) -> (entries: Vec<T>)
    ensures
        entries@ == buffer@.take(spec_kept_entries(buffer@.len() as usize, count) as int),
{
    let kept = kept_entries(buffer.len(), count);
    let mut entries: Vec<T> = Vec::new();
    let mut i: usize = 0;
    while i < kept
        invariant
            i <= kept <= buffer@.len(),
            entries@ == buffer@.take(i as int),
        decreases kept - i,
    {
        entries.push(buffer[i]);
        i += 1;
        assert(buffer@.take(i as int) =~= buffer@.take(i - 1).push(buffer@[i - 1]));
    }
    entries
}

} // verus!
