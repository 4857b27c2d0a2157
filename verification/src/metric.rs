use vstd::prelude::*;

verus! {

/// The two perceptual difference formulas the matcher can run with. The
/// choice is made once, at startup, and fixed for the whole run.
#[derive(PartialEq, Eq, Structural, Clone, Copy, Debug)]
pub enum Metric {
    Cie76,
    Cie94,
}

/// Character-for-character string equality.
pub fn str_eq(a: &str, b: &str) -> (r: bool)
    ensures
        r <==> a@ == b@,
{
    let alen = a.unicode_len();
    if alen != b.unicode_len() {
        return false;
    }
    let mut i: usize = 0;
    while i < alen
        invariant
            i <= alen,
            alen == a@.len(),
            alen == b@.len(),
            forall|j: int| 0 <= j < i ==> a@[j] == b@[j],
        decreases alen - i,
    {
        if a.get_char(i) != b.get_char(i) {
            return false;
        }
        i += 1;
    }
    proof {
        assert(a@ =~= b@);
    }
    true
}

/// Resolves the metric option: an absent option means the weighted
/// formula; `cie76` and `cie94` name the two formulas; any other value is
/// a configuration error, answered with `None` before any query runs.
pub fn select_metric(name: Option<&str>) -> (res: Option<Metric>)
    ensures
        match name {
            None => res == Some(Metric::Cie94),
            Some(n) => {
                if n@ == "cie76"@ {
                    res == Some(Metric::Cie76)
                } else if n@ == "cie94"@ {
                    res == Some(Metric::Cie94)
                } else {
                    res is None
                }
            },
        },
{
    match name {
        None => Some(Metric::Cie94),
        Some(n) => {
            if str_eq(n, "cie76") {
                Some(Metric::Cie76)
            } else if str_eq(n, "cie94") {
                Some(Metric::Cie94)
            } else {
                None
            }
        },
    }
}

} // verus!
