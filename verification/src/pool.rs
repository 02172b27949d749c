//! Choosing a pool member by the caller's index.
use vstd::prelude::*;

verus! {

/// The member index for the caller's `idx` in a pool of `len` members,
/// computed as `idx as usize` and kept when below `len`.
pub open spec fn member_index_of(idx: i32, len: usize) -> Option<usize> {
    if (idx as usize) < len {
        Some(idx as usize)
    } else {
        None
    }
}

/// The member index for `idx`, or `None` when it names no member (the C
/// call then returns handle `0`).
pub fn pool_member_index(idx: i32, len: usize) -> (index: Option<usize>)
    ensures
        index == member_index_of(idx, len),
        0 <= idx && idx < len ==> index == Some(idx as usize),
        0 <= idx && idx >= len ==> index is None,
        index matches Some(i) ==> i < len,
{
    let wide = idx as usize;
    if wide < len {
        Some(wide)
    } else {
        None
    }
}

/// Law: a nonnegative index names a member exactly when it is below the
/// pool size, and a negative one names none in any pool of at most 2^31
/// members.
pub proof fn law_member_index_in_range(idx: i32, len: usize)
    ensures
        idx >= 0 ==> (member_index_of(idx, len) == if idx < len { Some(idx as usize) } else { None }),
        idx < 0 && len <= 0x8000_0000 ==> member_index_of(idx, len) is None,
{
    if idx < 0 {
        assert((idx as usize) >= 0x8000_0000usize) by (bit_vector)
            requires
                idx < 0i32,
        ;
    }
}

} // verus!
