//! Flags of the thread sanitizer's annotations for custom mutexes and fibers.
//!
//! The names are those of the runtime's interface. The runtime pairs a "pre"
//! annotation with its "post" annotation by address and flags; nothing here
//! keeps track of calls.
use vstd::prelude::*;

verus! {

/// The mutex has static storage duration and no constructor or destructor
/// that does anything: its destruction is ignored.
#[allow(non_upper_case_globals)]
pub const __tsan_mutex_linker_init: u32 = 1;

/// The mutex can be write-locked again by the thread that holds it.
#[allow(non_upper_case_globals)]
pub const __tsan_mutex_write_reentrant: u32 = 2;

/// The mutex can be read-locked again by the thread that holds it.
#[allow(non_upper_case_globals)]
pub const __tsan_mutex_read_reentrant: u32 = 4;

/// The mutex does not have static storage duration and must not be used
/// after its destructor has run.
#[allow(non_upper_case_globals)]
pub const __tsan_mutex_not_static: u32 = 256;

/// The operation is a read lock.
#[allow(non_upper_case_globals)]
pub const __tsan_mutex_read_lock: u32 = 8;

/// The operation is a try lock.
#[allow(non_upper_case_globals)]
pub const __tsan_mutex_try_lock: u32 = 16;

/// The try lock did not get the mutex.
#[allow(non_upper_case_globals)]
pub const __tsan_mutex_try_lock_failed: u32 = 32;

/// The lock takes several levels of recursion at once.
#[allow(non_upper_case_globals)]
pub const __tsan_mutex_recursive_lock: u32 = 64;

/// The unlock gives back every level of recursion.
#[allow(non_upper_case_globals)]
pub const __tsan_mutex_recursive_unlock: u32 = 128;

/// A try lock for reading.
#[allow(non_upper_case_globals)]
pub const __tsan_mutex_try_read_lock: u32 = 24;

/// A try lock for reading that did not get the mutex.
#[allow(non_upper_case_globals)]
pub const __tsan_mutex_try_read_lock_failed: u32 = 56;

/// The switch to a fiber sets up no happens-before edge between the fibers.
#[allow(non_upper_case_globals)]
pub const __tsan_switch_to_fiber_no_sync: u32 = 1;

/// Whether `flags` holds every bit of `flag`.
pub open spec fn has_flag(flags: u32, flag: u32) -> bool {
    flags & flag == flag
}

/// The composed flags are the unions of their parts, and hold nothing else.
pub proof fn lemma_composed_flags()
    ensures
        __tsan_mutex_try_read_lock == __tsan_mutex_try_lock | __tsan_mutex_read_lock,
        __tsan_mutex_try_read_lock_failed == __tsan_mutex_try_read_lock
            | __tsan_mutex_try_lock_failed,
        has_flag(__tsan_mutex_try_read_lock, __tsan_mutex_try_lock),
        has_flag(__tsan_mutex_try_read_lock, __tsan_mutex_read_lock),
        !has_flag(__tsan_mutex_try_read_lock, __tsan_mutex_try_lock_failed),
        has_flag(__tsan_mutex_try_read_lock_failed, __tsan_mutex_try_lock_failed),
{
    assert(24u32 == 16u32 | 8u32) by (bit_vector);
    assert(56u32 == 24u32 | 32u32) by (bit_vector);
    assert(24u32 & 16u32 == 16u32) by (bit_vector);
    assert(24u32 & 8u32 == 8u32) by (bit_vector);
    assert(24u32 & 32u32 != 32u32) by (bit_vector);
    assert(56u32 & 32u32 == 32u32) by (bit_vector);
}

} // verus!
