//! Contracts for the few pieces of `std` string handling that vstd does
//! not specify itself.

use vstd::prelude::*;

verus! {

/// Relies on `alloc::string::String::push_str`: appending a string slice
/// appends exactly its characters to the receiver.
pub assume_specification[ String::push_str ](s: &mut String, other: &str)
    ensures
        final(s)@ == old(s)@ + other@,
;

} // verus!
