//! Small verified helpers over lists of resource identifiers.
use vstd::prelude::*;

verus! {

/// Whether `id` occurs in `ids`.
pub fn contains_id(ids: &Vec<usize>, id: usize) -> (r: bool)
    ensures
        r == ids@.contains(id),
{
    let mut i: usize = 0;
    while i < ids.len()
        invariant
            i <= ids@.len(),
            forall|j: int| 0 <= j < i ==> ids@[j] != id,
        decreases ids@.len() - i,
    {
        if ids[i] == id {
            return true;
        }
        i = i + 1;
    }
    false
}

/// Whether some identifier occurs twice in `ids`.
pub fn has_duplicate(ids: &Vec<usize>) -> (r: bool)
    ensures
        r == !ids@.no_duplicates(),
{
    let mut i: usize = 0;
    while i < ids.len()
        invariant
            i <= ids@.len(),
            forall|a: int, b: int| 0 <= a < b < ids@.len() && a < i ==> ids@[a] != ids@[b],
        decreases ids@.len() - i,
    {
        let mut j: usize = i + 1;
        while j < ids.len()
            invariant
                i < ids@.len(),
                i + 1 <= j <= ids@.len(),
                forall|a: int, b: int| 0 <= a < b < ids@.len() && a < i ==> ids@[a] != ids@[b],
                forall|b: int| i < b < j ==> ids@[i as int] != ids@[b],
            decreases ids@.len() - j,
        {
            if ids[i] == ids[j] {
                return true;
            }
            j = j + 1;
        }
        i = i + 1;
    }
    false
}

/// Whether every identifier of `sub` occurs in `ids`.
pub fn all_listed(sub: &Vec<usize>, ids: &Vec<usize>) -> (r: bool)
    ensures
        r == (forall|i: int| 0 <= i < sub@.len() ==> ids@.contains(#[trigger] sub@[i])),
{
    let mut i: usize = 0;
    while i < sub.len()
        invariant
            i <= sub@.len(),
            forall|k: int| 0 <= k < i ==> ids@.contains(#[trigger] sub@[k]),
        decreases sub@.len() - i,
    {
        if !contains_id(ids, sub[i]) {
            return false;
        }
        i = i + 1;
    }
    true
}

/// A copy of `ids`, element for element.
pub fn copy_ids(ids: &Vec<usize>) -> (r: Vec<usize>)
    ensures
        r@ == ids@,
{
    let mut out: Vec<usize> = Vec::new();
    let mut i: usize = 0;
    while i < ids.len()
        invariant
            i <= ids@.len(),
            out@ == ids@.subrange(0, i as int),
        decreases ids@.len() - i,
    {
        out.push(ids[i]);
        i = i + 1;
    }
    assert(out@ == ids@.subrange(0, ids@.len() as int));
    out
}

} // verus!
