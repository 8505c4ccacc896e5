//! Finding the first thing wrong among the items of a list.

use vstd::prelude::*;
use crate::types::RenderError;

verus! {

/// The error of the first item, among the items `0..n`, that has one.
pub open spec fn first_error_of(n: nat, error: spec_fn(int) -> Option<RenderError>) -> Option<
    RenderError,
>
    decreases n,
{
    if n == 0 {
        None
    } else {
        match first_error_of((n - 1) as nat, error) {
            Some(e) => Some(e),
            None => error(n - 1),
        }
    }
}

/// An item with an error after items without one decides the result.
pub proof fn lemma_first_error_found(n: nat, error: spec_fn(int) -> Option<RenderError>, i: int)
    requires
        0 <= i < n,
        first_error_of(i as nat, error) is None,
        error(i) is Some,
    ensures
        first_error_of(n, error) == error(i),
    decreases n,
{
    if n - 1 > i {
        lemma_first_error_found((n - 1) as nat, error, i);
    }
}

/// Where nothing is wrong, no item has an error.
pub proof fn lemma_no_error_at(n: nat, error: spec_fn(int) -> Option<RenderError>, i: int)
    requires
        0 <= i < n,
        first_error_of(n, error) is None,
    ensures
        error(i) is None,
    decreases n,
{
    if n - 1 > i {
        lemma_no_error_at((n - 1) as nat, error, i);
    }
}

} // verus!
