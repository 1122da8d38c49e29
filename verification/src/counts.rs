use vstd::prelude::*;

use crate::status::Status;

verus! {

/// The count that cairo receives for a Rust slice of `len` items, as a C
/// `int`: the length itself whenever it fits, and the length cut down to 32
/// bits as a cast to `c_int` cuts it otherwise.
pub fn count_to_c(len: usize) -> (r: i32)
    ensures
        r == len as i32,
        len <= i32::MAX ==> r == len,
{
    #[verifier::truncate]
    (len as i32)
}

/// The length in Rust of an array of which cairo reports `count` items.
pub fn count_from_c(count: i32) -> (r: usize)
    requires
        count >= 0,
    ensures
        r == count,
{
    count as usize
}

/// How many rectangles of a clip list cairo has filled in: all `num_rectangles`
/// of them when the list reports success, none when it reports an error (cairo
/// then leaves the list empty, and the status says why).
pub fn clip_rectangle_count(status: Status, num_rectangles: i32) -> (r: usize)
    requires
        num_rectangles >= 0,
    ensures
        status.spec_is_success() ==> r == num_rectangles,
        !status.spec_is_success() ==> r == 0,
{
    if status.is_success() {
        count_from_c(num_rectangles)
    } else {
        0
    }
}

} // verus!
