//! One digital pin, held by several owners.
//!
//! A [`SharedPin`] keeps a pin in a reference-counted cell. Every clone of a
//! handle refers to the same slot, and the pin lives until the last handle is
//! gone. Where the pin can drive its line, the handle can, and where the pin
//! can sense its line, the handle can: each call takes the slot, makes the one
//! call on the pin, gives the slot back and reports the result with the unit
//! error in place of whatever error the pin has.
//!
//! Sharing is cooperative and bound to one thread of execution.

pub mod capability;
pub mod outcome;
pub mod shared;
pub mod slot;

pub use outcome::settle;
pub use outcome::settled;
pub use shared::SharedPin;

