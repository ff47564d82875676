//! The adapter's error surface: a value, or the unit error.
use vstd::prelude::*;

verus! {

/// What the adapter reports for the answer of a call on the pin.
///
/// `Some(v)` stands for a call that succeeded with `v`, `None` for one that
/// failed; nothing of the pin's own error is kept.
pub open spec fn settled<T>(answer: Option<T>) -> Result<T, ()> {
    match answer {
        Some(v) => Ok(v),
        None => Err(()),
    }
}

/// Turns the answer of a call on the pin into the adapter's result: the value
/// unchanged where there is one, the unit error where there is none.
pub fn settle<T>(answer: Option<T>) -> (outcome: Result<T, ()>)
    ensures
        outcome == settled(answer),
{
    match answer {
        Some(v) => Ok(v),
        None => Err(()),
    }
}

/// The adapter reports an error exactly when the call on the pin failed, and
/// reports success with a value exactly when the call succeeded with it.
pub proof fn lemma_settled_faithful<T>(answer: Option<T>)
    ensures
        settled(answer) is Err <==> answer is None,
        settled(answer) is Ok <==> answer is Some,
        forall|v: T| settled(answer) == Ok::<T, ()>(v) <==> answer == Some(v),
{
}

} // verus!
