use vstd::prelude::*;
use crate::status::VkResult;

verus! {

/// What a two-phase "enumerate into a caller buffer" call hands back: the
/// status, the value for the caller's count variable, and the items to place
/// at the front of the caller's buffer.
pub struct Listing<T> {
    pub result: VkResult,
    pub count: u32,
    pub items: Vec<T>,
}

/// How many items a fill with the given capacity copies out of a list.
pub open spec fn copied_len(capacity: nat, len: nat) -> nat {
    if capacity < len {
        capacity
    } else {
        len
    }
}

/// Whether `r` is the answer of the two-phase protocol for `list`, where
/// `capacity` is `None` for a size query (no buffer given) and `Some(c)` for a
/// fill into a buffer of `c` elements.
pub open spec fn is_listing<T>(list: Seq<T>, capacity: Option<u32>, r: Listing<T>) -> bool {
    match capacity {
        None => {
            &&& r.result == VkResult::Success
            &&& r.count as nat == list.len()
            &&& r.items@.len() == 0
        },
        Some(c) => {
            &&& r.count as nat == copied_len(c as nat, list.len())
            &&& r.items@ == list.subrange(0, r.count as int)
            &&& r.result == if (c as nat) < list.len() {
                VkResult::Incomplete
            } else {
                VkResult::Success
            }
        },
    }
}

/// The two-phase enumeration protocol. Without a buffer it reports the length
/// of `list`; with a buffer of `capacity` elements it copies the longest prefix
/// of `list` that fits, reports how many items it copied, and says
/// `Incomplete` when items were left out.
pub fn do_list<T: Copy>(list: &[T], capacity: Option<u32>) -> (r: Listing<T>)
    requires
        list@.len() <= u32::MAX,
    ensures
        is_listing(list@, capacity, r),
{
    match capacity {
        None => Listing { result: VkResult::Success, count: list.len() as u32, items: Vec::new() },
        Some(c) => {
            let to_copy: usize = if (c as usize) < list.len() {
                c as usize
            } else {
                list.len()
            };
            let mut items: Vec<T> = Vec::new();
            let mut i: usize = 0;
            while i < to_copy
                invariant
                    to_copy <= list@.len(),
                    i <= to_copy,
                    items@ == list@.subrange(0, i as int),
                decreases to_copy - i,
            {
                items.push(list[i]);
                i = i + 1;
            }
            let result = if to_copy == list.len() {
                VkResult::Success
            } else {
                VkResult::Incomplete
            };
            Listing { result, count: to_copy as u32, items }
        },
    }
}

/// A size query reports the length of the list and succeeds, for every list,
/// the empty one included.
pub proof fn lemma_size_query<T>(list: Seq<T>, r: Listing<T>)
    requires
        is_listing(list, None, r),
    ensures
        r.count == list.len(),
        r.result == VkResult::Success,
{
}

/// A fill into a buffer that holds the whole list copies all of it, in order,
/// reports its length and succeeds.
pub proof fn lemma_fill_complete<T>(list: Seq<T>, capacity: u32, r: Listing<T>)
    requires
        is_listing(list, Some(capacity), r),
        list.len() <= capacity,
    ensures
        r.items@ == list,
        r.count == list.len(),
        r.result == VkResult::Success,
{
    assert(list.subrange(0, list.len() as int) =~= list);
}

/// A fill into a buffer smaller than the list copies exactly the first
/// `capacity` items, reports `capacity` and says `Incomplete`.
pub proof fn lemma_fill_truncated<T>(list: Seq<T>, capacity: u32, r: Listing<T>)
    requires
        is_listing(list, Some(capacity), r),
        capacity < list.len(),
    ensures
        r.items@ == list.subrange(0, capacity as int),
        r.count == capacity,
        r.result == VkResult::Incomplete,
{
}

} // verus!
