use vstd::prelude::*;
use crate::color::SRGBColor;

verus! {

/// Nearest-neighbor selection over the distances from one query color to
/// every palette entry, given in palette order. Returns the index of the
/// entry at minimal distance; a later entry replaces the best candidate
/// only on a strictly smaller distance, so among equidistant entries the
/// earliest index wins. `None` exactly when the palette is empty.
pub fn nearest_index(dists: &Vec<u64>) -> (res: Option<usize>)
    ensures
        res is None <==> dists@.len() == 0,
        match res {
            Some(i) => {
                &&& i < dists@.len()
                &&& forall|j: int|
                    0 <= j < dists@.len() ==> dists@[i as int] <= #[trigger] dists@[j]
                &&& forall|j: int| 0 <= j < i ==> #[trigger] dists@[j] > dists@[i as int]
            },
            None => true,
        },
{
    if dists.len() == 0 {
        return None;
    }
    let mut best: usize = 0;
    let mut diff: u64 = dists[0];
    let mut ix: usize = 1;
    while ix < dists.len()
        invariant
            1 <= ix <= dists@.len(),
            best < ix,
            diff == dists@[best as int],
            forall|j: int| 0 <= j < ix ==> diff <= #[trigger] dists@[j],
            forall|j: int| 0 <= j < best ==> #[trigger] dists@[j] > diff,
        decreases dists@.len() - ix,
    {
        let current = dists[ix];
        if current < diff {
            diff = current;
            best = ix;
        }
        ix += 1;
    }
    Some(best)
}

/// Finds the palette entry perceptually closest to a query color, given
/// the distance from the query to each entry in palette order. Ties keep
/// the earliest index; `None` exactly when the palette is empty.
pub fn nearest_color<'a>(dists: &Vec<u64>, palette: &'a Vec<(SRGBColor, String)>) -> (res:
    Option<(usize, &'a (SRGBColor, String))>)
    requires
        dists@.len() == palette@.len(),
    ensures
        res is None <==> palette@.len() == 0,
        match res {
            Some(p) => {
                &&& p.0 < palette@.len()
                &&& *p.1 == palette@[p.0 as int]
                &&& forall|j: int|
                    0 <= j < dists@.len() ==> dists@[p.0 as int] <= #[trigger] dists@[j]
                &&& forall|j: int| 0 <= j < p.0 ==> #[trigger] dists@[j] > dists@[p.0 as int]
            },
            None => true,
        },
{
    match nearest_index(dists) {
        Some(ix) => Some((ix, &palette[ix])),
        None => None,
    }
}

} // verus!
