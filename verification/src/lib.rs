use vstd::prelude::*;

pub mod color;
pub mod matcher;
pub mod metric;
pub mod output;
pub mod palette;

verus! {

/// Returns the value inside `opt`. The caller must rule the `None` case out
/// beforehand (and report its own diagnostic): the functions of this library
/// never abort, so the impossible case is excluded by contract instead.
pub fn unwrap_or_error<T>(opt: Option<T>) -> (r: T)
    requires
        opt is Some,
    ensures
        opt == Some(r),
{
    match opt {
        Some(a) => a,
        None => vstd::pervasive::unreached(),
    }
}

} // verus!
