use vstd::prelude::*;

verus! {

/// The case number of a new punishment in a guild: one more than that of the
/// last punishment recorded there, or 1 where there is none yet. `None` once
/// the numbers are used up.
pub fn next_case(last_case: Option<i32>) -> (case: Option<i32>)
    ensures
        case == match last_case {
            None => Some(1i32),
            Some(last) => if last < i32::MAX {
                Some((last + 1) as i32)
            } else {
                None
            },
        },
{
    match last_case {
        None => Some(1),
        Some(last) => last.checked_add(1),
    }
}

} // verus!
