//! The pin's capabilities, offered by the handle.
//!
//! A handle is an output pin where the pin in its slot is one, and an input
//! pin where that pin is one. Each method is one run of the slot's protocol
//! around the one call on the pin.
use crate::shared::lemma_run_depends_on_slot;
use crate::shared::SharedPin;
use embedded_hal::digital::v2::InputPin;
use embedded_hal::digital::v2::OutputPin;
use vstd::prelude::*;

verus! {

/// `OutputPin::set_low` on the pin, with `Result::ok` on what it returns:
/// `Some(())` where the pin reports success, `None` where it reports an error.
/// What the pin reports is the pin's affair, so nothing is claimed.
#[verifier::external_body]
fn pin_set_low<P: OutputPin>(pin: &mut P) -> (answer: Option<()>) {
    pin.set_low().ok()
}

/// `OutputPin::set_high` on the pin, with `Result::ok` on what it returns:
/// `Some(())` where the pin reports success, `None` where it reports an error.
/// What the pin reports is the pin's affair, so nothing is claimed.
#[verifier::external_body]
fn pin_set_high<P: OutputPin>(pin: &mut P) -> (answer: Option<()>) {
    pin.set_high().ok()
}

/// `InputPin::is_high` on the pin, with `Result::ok` on what it returns:
/// `Some(level)` where the pin reports a level, `None` where it reports an
/// error. What the pin reports is the pin's affair, so nothing is claimed.
#[verifier::external_body]
fn pin_is_high<P: InputPin>(pin: &mut P) -> (answer: Option<bool>) {
    pin.is_high().ok()
}

/// `InputPin::is_low` on the pin, with `Result::ok` on what it returns:
/// `Some(level)` where the pin reports a level, `None` where it reports an
/// error. What the pin reports is the pin's affair, so nothing is claimed.
#[verifier::external_body]
fn pin_is_low<P: InputPin>(pin: &mut P) -> (answer: Option<bool>) {
    pin.is_low().ok()
}

/// Whether `outcome` is what a call of the pin's `set_low` through `shared`
/// comes to: what `with_pin` comes to with that call as its operation, so
/// `Ok(())` for the pin's success, and the unit error for the pin's error or
/// for a slot that was taken.
pub closed spec fn set_low_gives<P: OutputPin>(
    shared: SharedPin<P>,
    outcome: Result<(), ()>,
) -> bool {
    shared.run_gives(pin_set_low::<P>, outcome)
}

/// Whether `outcome` is what a call of the pin's `set_high` through `shared`
/// comes to: what `with_pin` comes to with that call as its operation, so
/// `Ok(())` for the pin's success, and the unit error for the pin's error or
/// for a slot that was taken.
pub closed spec fn set_high_gives<P: OutputPin>(
    shared: SharedPin<P>,
    outcome: Result<(), ()>,
) -> bool {
    shared.run_gives(pin_set_high::<P>, outcome)
}

/// Whether `outcome` is what a call of the pin's `is_high` through `shared`
/// comes to: what `with_pin` comes to with that call as its operation, so
/// `Ok` of the level that the pin reported, and the unit error for the pin's
/// error or for a slot that was taken.
pub closed spec fn is_high_gives<P: InputPin>(
    shared: SharedPin<P>,
    outcome: Result<bool, ()>,
) -> bool {
    shared.run_gives(pin_is_high::<P>, outcome)
}

/// Whether `outcome` is what a call of the pin's `is_low` through `shared`
/// comes to: what `with_pin` comes to with that call as its operation, so
/// `Ok` of the level that the pin reported, and the unit error for the pin's
/// error or for a slot that was taken.
pub closed spec fn is_low_gives<P: InputPin>(
    shared: SharedPin<P>,
    outcome: Result<bool, ()>,
) -> bool {
    shared.run_gives(pin_is_low::<P>, outcome)
}

/// What a driving call through one handle can come to, the same call through
/// any handle of the same slot can come to.
pub proof fn lemma_driving_depends_on_slot<P: OutputPin>(
    one: SharedPin<P>,
    other: SharedPin<P>,
    outcome: Result<(), ()>,
)
    requires
        one.same_slot(&other),
    ensures
        set_low_gives(one, outcome) ==> set_low_gives(other, outcome),
        set_high_gives(one, outcome) ==> set_high_gives(other, outcome),
{
    if set_low_gives(one, outcome) {
        lemma_run_depends_on_slot(one, other, pin_set_low::<P>, outcome);
    }
    if set_high_gives(one, outcome) {
        lemma_run_depends_on_slot(one, other, pin_set_high::<P>, outcome);
    }
}

/// What a sensing call through one handle can come to, the same call through
/// any handle of the same slot can come to.
pub proof fn lemma_sensing_depends_on_slot<P: InputPin>(
    one: SharedPin<P>,
    other: SharedPin<P>,
    outcome: Result<bool, ()>,
)
    requires
        one.same_slot(&other),
    ensures
        is_high_gives(one, outcome) ==> is_high_gives(other, outcome),
        is_low_gives(one, outcome) ==> is_low_gives(other, outcome),
{
    if is_high_gives(one, outcome) {
        lemma_run_depends_on_slot(one, other, pin_is_high::<P>, outcome);
    }
    if is_low_gives(one, outcome) {
        lemma_run_depends_on_slot(one, other, pin_is_low::<P>, outcome);
    }
}

impl<P: OutputPin> OutputPin for SharedPin<P> {
    type Error = ();

    /// Takes the slot and calls set_low() on the pin. Whether the call
    /// succeeds is the pin's to decide; the handle refers to its slot as
    /// before either way.
    fn set_low(&mut self) -> (outcome: Result<(), ()>)
        ensures
            *final(self) == *old(self),
            set_low_gives(*old(self), outcome),
    {
        self.with_pin(pin_set_low)
    }

    /// Takes the slot and calls set_high() on the pin. Whether the call
    /// succeeds is the pin's to decide; the handle refers to its slot as
    /// before either way.
    fn set_high(&mut self) -> (outcome: Result<(), ()>)
        ensures
            *final(self) == *old(self),
            set_high_gives(*old(self), outcome),
    {
        self.with_pin(pin_set_high)
    }
}

impl<P: InputPin> InputPin for SharedPin<P> {
    type Error = ();

    /// Takes the slot and calls is_high() on the pin: `true` where the pin
    /// senses high. The level, or the failure, is the pin's to decide.
    fn is_high(&self) -> (outcome: Result<bool, ()>)
        ensures
            is_high_gives(*self, outcome),
    {
        self.with_pin(pin_is_high)
    }

    /// Takes the slot and calls is_low() on the pin: `true` where the pin
    /// senses low. The level, or the failure, is the pin's to decide.
    fn is_low(&self) -> (outcome: Result<bool, ()>)
        ensures
            is_low_gives(*self, outcome),
    {
        self.with_pin(pin_is_low)
    }
}

} // verus!
