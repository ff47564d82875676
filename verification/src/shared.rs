//! The shared handle.
use crate::slot::settles_a_run;
use crate::slot::taken_from;
use crate::slot::with_hold;
use std::cell::BorrowMutError;
use std::cell::RefCell;
use std::cell::RefMut;
use std::rc::Rc;
use vstd::prelude::*;

verus! {

/// A handle to a pin that several owners hold together.
///
/// All handles made by cloning one another refer to one slot, and the slot
/// holds the one pin. A handle always refers to a slot with a pin in it. The
/// pin is dropped when the last handle is.
///
/// The pin's own methods must not call back into a handle of the slot they
/// are run from: such a call finds the slot taken and reports the unit error.
#[verifier::reject_recursive_types(P)]
pub struct SharedPin<P> {
    pin: Rc<RefCell<P>>,
    made_from: Ghost<P>,
}

/// `Rc::strong_count`: the number of `Rc` pointers to the allocation, the one
/// passed in among them.
#[verifier::external_body]
fn owners_of<P>(pin: &Rc<RefCell<P>>) -> (count: usize)
    ensures
        count >= 1,
{
    Rc::strong_count(pin)
}

impl<P> SharedPin<P> {
    /// The pin as it was when it was handed to `new` to make this handle's
    /// slot. What the slot holds now is what the calls since have made of it.
    pub closed spec fn wrapped(&self) -> P {
        self.made_from@
    }

    /// The slot that the handle refers to. A cell is its identity, so this is
    /// the same for two handles exactly when they refer to one cell.
    pub closed spec fn slot(&self) -> RefCell<P> {
        *self.pin
    }

    /// Whether the two handles refer to one slot, and so to one pin.
    pub open spec fn same_slot(&self, other: &Self) -> bool {
        self.slot() == other.slot()
    }

    /// Whether `count` is a number that `Rc::strong_count` gave for the
    /// allocation that holds this handle's slot.
    pub closed spec fn counted(&self, count: usize) -> bool {
        call_ensures(owners_of::<P>, (&self.pin,), count)
    }

    /// Whether `outcome` is what a run of `op` through this handle comes to.
    ///
    /// The handle's slot is what is handed to `try_borrow_mut`. Where that
    /// gave no hold, the slot was taken and the outcome is the unit error.
    /// Where it gave one, the outcome is the settled answer of a run of `op`
    /// on the pin.
    pub open spec fn run_gives<T, F: FnOnce(&mut P) -> Option<T>>(
        &self,
        op: F,
        outcome: Result<T, ()>,
    ) -> bool {
        exists|hold: Result<RefMut<'_, P>, BorrowMutError>|
            {
                &&& #[trigger] taken_from(self.slot(), hold)
                &&& hold is Err ==> outcome == Err::<T, ()>(())
                &&& hold is Ok ==> settles_a_run(op, outcome)
            }
    }

    /// Makes a slot around `pin` and gives back the first handle to it.
    pub fn new(pin: P) -> (shared: Self)
        ensures
            shared.wrapped() == pin,
    {
        let made_from = Ghost(pin);
        SharedPin { pin: Rc::new(RefCell::new(pin)), made_from }
    }

    /// The number of handles that refer to this handle's slot, itself
    /// included.
    pub fn handle_count(&self) -> (count: usize)
        ensures
            count >= 1,
            self.counted(count),
    {
        owners_of(&self.pin)
    }

    /// Takes the slot, runs `op` once on the pin in it, gives the slot back
    /// and settles the answer. Where the slot is already taken, `op` is not
    /// run and the unit error is reported.
    pub fn with_pin<T, F>(&self, op: F) -> (outcome: Result<T, ()>) where
        F: FnOnce(&mut P) -> Option<T>,

        requires
            forall|pin: &mut P| op.requires((pin,)),
        ensures
            self.run_gives(op, outcome),
    {
        let hold = self.pin.try_borrow_mut();
        assert(taken_from(self.slot(), hold));
        with_hold(hold, op)
    }
}

impl<P> Clone for SharedPin<P> {
    /// Another handle to the same slot.
    fn clone(&self) -> (other: Self)
        ensures
            other == *self,
    {
        SharedPin { pin: self.pin.clone(), made_from: self.made_from }
    }
}

/// A count that one handle can report, any handle of the same slot can
/// report: the handles of a slot are counted together.
pub proof fn lemma_count_depends_on_slot<P>(one: SharedPin<P>, other: SharedPin<P>, count: usize)
    requires
        one.same_slot(&other),
        one.counted(count),
    ensures
        other.counted(count),
        count >= 1,
{
}

/// What a run through one handle can come to, a run through any handle of the
/// same slot can come to: the calls act on the slot, whichever handle makes
/// them.
pub proof fn lemma_run_depends_on_slot<P, T, F: FnOnce(&mut P) -> Option<T>>(
    one: SharedPin<P>,
    other: SharedPin<P>,
    op: F,
    outcome: Result<T, ()>,
)
    requires
        one.same_slot(&other),
        one.run_gives(op, outcome),
    ensures
        other.run_gives(op, outcome),
{
    let hold = choose|hold: Result<RefMut<'_, P>, BorrowMutError>|
        {
            &&& #[trigger] taken_from(one.slot(), hold)
            &&& hold is Err ==> outcome == Err::<T, ()>(())
            &&& hold is Ok ==> settles_a_run(op, outcome)
        };
    assert(taken_from(other.slot(), hold));
}

/// A run through a handle comes to the unit error or to the settled answer of
/// a run of the operation on the pin.
pub proof fn lemma_run_settles<P, T, F: FnOnce(&mut P) -> Option<T>>(
    shared: SharedPin<P>,
    op: F,
    outcome: Result<T, ()>,
)
    requires
        shared.run_gives(op, outcome),
    ensures
        outcome == Err::<T, ()>(()) || settles_a_run(op, outcome),
{
}

/// Whether the handle at `k` is a clone of one that stands before it in the
/// chain.
pub open spec fn cloned_from_earlier<P>(chain: Seq<SharedPin<P>>, k: int) -> bool {
    exists|m: int| 0 <= m < k && #[trigger] cloned::<SharedPin<P>>(chain[m], chain[k])
}

/// Whether every handle of the chain but the first is a clone of one that
/// stands before it: the handles that cloning has made from the first.
pub open spec fn chain_of_clones<P>(chain: Seq<SharedPin<P>>) -> bool {
    forall|k: int| 0 < k < chain.len() ==> #[trigger] cloned_from_earlier(chain, k)
}

/// Handles obtained from a common root by cloning, over any number of steps
/// and along any branches, are all equal to the root: they refer to its slot.
pub proof fn lemma_clones_equal_root<P>(chain: Seq<SharedPin<P>>, k: int)
    requires
        chain_of_clones(chain),
        0 <= k < chain.len(),
    ensures
        chain[k] == chain[0],
        chain[k].same_slot(&chain[0]),
    decreases k,
{
    if k > 0 {
        assert(cloned_from_earlier(chain, k));
        let m = choose|m: int|
            0 <= m < k && #[trigger] cloned::<SharedPin<P>>(chain[m], chain[k]);
        lemma_clones_equal_root(chain, m);
    }
}

/// Any two handles obtained from a common root by cloning refer to one slot,
/// so a call through the one and a later call through the other take the same
/// slot and reach the same pin.
pub proof fn lemma_clones_share_slot<P>(chain: Seq<SharedPin<P>>, i: int, j: int)
    requires
        chain_of_clones(chain),
        0 <= i < chain.len(),
        0 <= j < chain.len(),
    ensures
        chain[i].same_slot(&chain[j]),
        chain[i].wrapped() == chain[j].wrapped(),
{
    lemma_clones_equal_root(chain, i);
    lemma_clones_equal_root(chain, j);
}

} // verus!
