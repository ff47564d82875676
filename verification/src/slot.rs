//! The slot: a cell that holds the pin and lends it to one call at a time.
//!
//! The cell is `std::cell::RefCell`. In a contract a cell is only its
//! identity: what it holds is no part of its value, so two references to one
//! cell stay equal whatever is done to the pin inside.
use crate::outcome::settle;
use crate::outcome::settled;
use std::cell::BorrowMutError;
use std::cell::RefCell;
use std::cell::RefMut;
use std::ops::DerefMut;
use vstd::prelude::*;

verus! {

/// `std::cell::RefCell`, taken as an opaque type.
#[verifier::external_type_specification]
#[verifier::external_body]
#[verifier::reject_recursive_types(T)]
pub struct ExRefCell<T: ?Sized>(RefCell<T>);

/// `std::cell::RefMut`, the exclusive hold on a cell's content, taken as an
/// opaque type. The hold ends when the value is dropped.
#[verifier::external_type_specification]
#[verifier::external_body]
#[verifier::reject_recursive_types(T)]
pub struct ExRefMut<'b, T: ?Sized + 'b>(RefMut<'b, T>);

/// `std::cell::BorrowMutError`, which `try_borrow_mut` returns for a cell that
/// is already held, taken as an opaque type.
#[verifier::external_type_specification]
#[verifier::external_body]
pub struct ExBorrowMutError(BorrowMutError);

/// `RefCell::new` makes a cell around a value. Nothing is claimed of the cell.
pub assume_specification<T>[ RefCell::<T>::new ](value: T) -> (cell: RefCell<T>)
;

/// `RefCell::try_borrow_mut` gives an exclusive hold on the cell's content, or
/// an error where the content is already held; it does not panic. Which of the
/// two comes back depends on what else holds the cell, so nothing is claimed.
pub assume_specification<'a, T: ?Sized>[ RefCell::<T>::try_borrow_mut ](
    cell: &'a RefCell<T>,
) -> (hold: Result<RefMut<'a, T>, BorrowMutError>)
;

/// Whether `hold` is a result that `RefCell::try_borrow_mut` gave for `cell`:
/// a hold on its content, or the error for a cell that was already held.
pub open spec fn taken_from<P>(
    cell: RefCell<P>,
    hold: Result<RefMut<'_, P>, BorrowMutError>,
) -> bool {
    call_ensures(RefCell::<P>::try_borrow_mut, (&cell,), hold)
}

/// `DerefMut::deref_mut` of `RefMut`: the content that the hold gives access
/// to. Nothing is claimed of the content.
#[verifier::external_body]
fn content_of<'a, P>(held: &'a mut RefMut<'_, P>) -> (pin: &'a mut P) {
    held.deref_mut()
}

/// Whether `outcome` is what a run of `op` on some pin comes to: the run's
/// answer, settled.
pub open spec fn settles_a_run<P, T, F: FnOnce(&mut P) -> Option<T>>(
    op: F,
    outcome: Result<T, ()>,
) -> bool {
    exists|pin: &mut P, answer: Option<T>| #[trigger]
        op.ensures((pin,), answer) && outcome == settled(answer)
}

/// Runs `op` on the pin behind `hold` and settles its answer; without a hold,
/// reports the unit error and leaves `op` unused.
///
/// `op` is consumed by its one run. The hold ends before the function returns.
pub fn with_hold<P, T, F>(
    hold: Result<RefMut<'_, P>, BorrowMutError>,
    op: F,
) -> (outcome: Result<T, ()>) where
    F: FnOnce(&mut P) -> Option<T>,

    requires
        hold is Ok ==> forall|pin: &mut P| op.requires((pin,)),
    ensures
        hold is Err ==> outcome == Err::<T, ()>(()),
        hold is Ok ==> settles_a_run(op, outcome),
{
    match hold {
        Ok(mut held) => {
            let answer = op(content_of(&mut held));
            settle(answer)
        },
        Err(_) => Err(()),
    }
}

/// Where the contract of an operation fixes its answer, a run of it comes to
/// that answer, settled: the unit error exactly where the operation fails, and
/// the operation's own value exactly where it succeeds.
pub proof fn lemma_run_follows_answer<P, T, F: FnOnce(&mut P) -> Option<T>>(
    op: F,
    expected: Option<T>,
    outcome: Result<T, ()>,
)
    requires
        forall|pin: &mut P, answer: Option<T>| #[trigger]
            op.ensures((pin,), answer) ==> answer == expected,
        settles_a_run(op, outcome),
    ensures
        outcome == settled(expected),
        outcome is Err <==> expected is None,
        forall|v: T| outcome == Ok::<T, ()>(v) <==> expected == Some(v),
{
}

/// Whatever a run comes to, the operation can give the answer behind it: an
/// error is reported only where the operation can fail, a value only where
/// the operation can give that value.
pub proof fn lemma_run_has_answer<P, T, F: FnOnce(&mut P) -> Option<T>>(
    op: F,
    outcome: Result<T, ()>,
)
    requires
        settles_a_run(op, outcome),
    ensures
        outcome is Err ==> exists|pin: &mut P| #[trigger] op.ensures((pin,), None::<T>),
        forall|v: T|
            outcome == Ok::<T, ()>(v) ==> exists|pin: &mut P| #[trigger]
                op.ensures((pin,), Some(v)),
{
    let (pin, answer) = choose|pin: &mut P, answer: Option<T>| #[trigger]
        op.ensures((pin,), answer) && outcome == settled(answer);
    assert(op.ensures((pin,), answer));
}

} // verus!
