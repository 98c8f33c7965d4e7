//! Decoding of the plain values a runtime hands back.
use vstd::prelude::*;

verus! {

/// What an integer-coded boolean of the C ABI means: zero is false, every
/// other value is true.
pub open spec fn spec_is_set(code: i32) -> bool {
    code != 0
}

/// Decodes an integer-coded boolean.
#[verifier::when_used_as_spec(spec_is_set)]
pub fn is_set(code: i32) -> (set: bool)
    ensures
        set == spec_is_set(code),
{
    code != 0
}

/// What a nullable address carries: nothing where it is null, else `value`.
pub open spec fn spec_non_null<T>(address: usize, value: T) -> Option<T> {
    if address == 0 {
        None
    } else {
        Some(value)
    }
}

/// Hands `value` on only where `address`, the address it stands for, is not
/// null.
#[verifier::when_used_as_spec(spec_non_null)]
pub fn non_null<T>(address: usize, value: T) -> (found: Option<T>)
    ensures
        found == spec_non_null(address, value),
{
    if address == 0 {
        None
    } else {
        Some(value)
    }
}

} // verus!
