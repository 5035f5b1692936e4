//! Helpers for the text that reports a run.
use vstd::prelude::*;

verus! {

/// The singular form where `count` is one, the plural form otherwise.
pub fn pluralize(count: usize, singular: &str, plural: &str) -> (r: String)
    ensures
        r@ == if count == 1 { singular@ } else { plural@ },
{
    if count == 1 {
        singular.to_string()
    } else {
        plural.to_string()
    }
}

} // verus!
