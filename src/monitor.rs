use vstd::prelude::*;
use crate::geometry::Display;

verus! {

/// The first display at or after index `i` that is flagged primary.
pub open spec fn primary_from(ds: Seq<Display>, i: int) -> Option<Display>
    decreases ds.len() - i,
{
    if i < 0 || i >= ds.len() {
        None
    } else if ds[i].is_primary {
        Some(ds[i])
    } else {
        primary_from(ds, i + 1)
    }
}

/// The display that hosts the panel: the first one flagged primary, else the
/// first one listed, else none.
pub open spec fn resolved(ds: Seq<Display>) -> Option<Display> {
    match primary_from(ds, 0) {
        Some(d) => Some(d),
        None => if ds.len() > 0 {
            Some(ds[0])
        } else {
            None
        },
    }
}

/// Every display of the list has a positive scale factor.
pub open spec fn all_wf(ds: Seq<Display>) -> bool {
    forall|i: int| 0 <= i < ds.len() ==> #[trigger] ds[i].wf()
}

/// Picks the display that should host the panel.
pub fn resolve_primary(displays: &Vec<Display>) -> (r: Option<Display>)
    ensures
        r == resolved(displays@),
{
    let n = displays.len();
    let mut i: usize = 0;
    while i < n
        invariant
            n == displays@.len(),
            0 <= i <= n,
            primary_from(displays@, 0) == primary_from(displays@, i as int),
        decreases n - i,
    {
        if displays[i].is_primary {
            return Some(displays[i]);
        }
        i = i + 1;
    }
    if n > 0 {
        Some(displays[0])
    } else {
        None
    }
}

/// A display flagged primary is chosen wherever it stands in the list, as long
/// as no display before it is flagged too.
pub proof fn lemma_primary_wins(ds: Seq<Display>, k: int)
    requires
        0 <= k < ds.len(),
        ds[k].is_primary,
        forall|j: int| 0 <= j < k ==> !(#[trigger] ds[j]).is_primary,
    ensures
        resolved(ds) == Some(ds[k]),
{
    lemma_primary_from_skips(ds, 0, k);
}

proof fn lemma_primary_from_skips(ds: Seq<Display>, i: int, k: int)
    requires
        0 <= i <= k < ds.len(),
        ds[k].is_primary,
        forall|j: int| 0 <= j < k ==> !(#[trigger] ds[j]).is_primary,
    ensures
        primary_from(ds, i) == Some(ds[k]),
    decreases k - i,
{
    if i < k {
        lemma_primary_from_skips(ds, i + 1, k);
    }
}

/// With no display listed, none is resolved.
pub proof fn lemma_no_display(ds: Seq<Display>)
    requires
        ds.len() == 0,
    ensures
        resolved(ds) is None,
{
}

} // verus!
