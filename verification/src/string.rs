use vstd::prelude::*;

verus! {

/// Returns `Some(s)` if `s` is not empty, otherwise `None`.
pub fn empty_as_none(s: &str) -> (res: Option<&str>)
    ensures
        s@.len() == 0 ==> res is None,
        s@.len() != 0 ==> res == Some(s),
{
    if s.is_empty() {
        None
    } else {
        Some(s)
    }
}

} // verus!
