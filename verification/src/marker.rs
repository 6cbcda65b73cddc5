//! Marker traits used by the pin type-state machine.
//!
//! Pin capabilities are gated at compile time: an operation is only
//! callable when the pin's mode (or its concrete pin type) implements the
//! matching marker trait, so a handle in the wrong mode is rejected by the
//! type checker, never at run time.

use vstd::prelude::*;

verus! {

/// Marker trait for GPIO ports.
pub trait Gpio: crate::gpio::Gpio {

}

/// Marker trait for pin numbers.
pub trait Index {
    /// The pin number within its bank.
    spec fn spec_index(&self) -> u8;

    /// The pin number as a run-time value; a bank holds at most sixteen
    /// pins.
    fn index(&self) -> (r: u8)
        ensures
            r == self.spec_index(),
            r < 16,
    ;
}

/// Marker trait for pin numbers fixed at compile time; such a number can
/// be erased into a run-time one.
pub trait Unsigned: Index {

}

/// Marker trait for readable pin modes.
pub trait Readable {

}

/// Marker trait for slew-rate configurable pin modes.
pub trait OutputSpeed {

}

/// Marker trait for active pin modes.
pub trait Active {

}

/// Marker trait for pins with an alternate function 0 mapping.
pub trait IntoAf0 {

}

/// Marker trait for pins with an alternate function 1 mapping.
pub trait IntoAf1 {

}

/// Marker trait for pins with an alternate function 2 mapping.
pub trait IntoAf2 {

}

/// Marker trait for pins with an alternate function 3 mapping.
pub trait IntoAf3 {

}

/// Marker trait for pins with an alternate function 4 mapping.
pub trait IntoAf4 {

}

/// Marker trait for pins with an alternate function 5 mapping.
pub trait IntoAf5 {

}

/// Marker trait for pins with an alternate function 6 mapping.
pub trait IntoAf6 {

}

/// Marker trait for pins with an alternate function 7 mapping.
pub trait IntoAf7 {

}

/// Marker trait for pins with an alternate function 8 mapping.
pub trait IntoAf8 {

}

/// Marker trait for pins with an alternate function 9 mapping.
pub trait IntoAf9 {

}

/// Marker trait for pins with an alternate function 10 mapping.
pub trait IntoAf10 {

}

/// Marker trait for pins with an alternate function 11 mapping.
pub trait IntoAf11 {

}

/// Marker trait for pins with an alternate function 12 mapping.
pub trait IntoAf12 {

}

/// Marker trait for pins with an alternate function 13 mapping.
pub trait IntoAf13 {

}

/// Marker trait for pins with an alternate function 14 mapping.
pub trait IntoAf14 {

}

/// Marker trait for pins with an alternate function 15 mapping.
pub trait IntoAf15 {

}

} // verus!
