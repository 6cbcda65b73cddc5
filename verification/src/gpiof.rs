//! All pins and associated registers for GPIO port F.

use vstd::prelude::*;

use crate::field::field_set;
use crate::gpio::{Gpio, GpioExt, Input, Pin, U0, U1, U10, U2, U4, U6, U9, Ux};
use crate::marker;
use crate::reg::{enable_and_reset, Ahb, GpioRegExt, GpioRegisters, RegView};

verus! {

/// GPIO port F (type state).
pub struct Gpiof;

impl Gpio for Gpiof {
    open spec fn spec_port_index(&self) -> u8 {
        5
    }

    fn port_index(&self) -> (r: u8) {
        5
    }
}

impl marker::Gpio for Gpiof {

}

/// Partially erased pin of port F.
pub type PFx<Mode> = Pin<Gpiof, Ux, Mode>;

/// Pin F0.
pub type PF0<Mode> = Pin<Gpiof, U0, Mode>;

/// Pin F1.
pub type PF1<Mode> = Pin<Gpiof, U1, Mode>;

/// Pin F2.
pub type PF2<Mode> = Pin<Gpiof, U2, Mode>;

/// Pin F4.
pub type PF4<Mode> = Pin<Gpiof, U4, Mode>;

/// Pin F6.
pub type PF6<Mode> = Pin<Gpiof, U6, Mode>;

/// Pin F9.
pub type PF9<Mode> = Pin<Gpiof, U9, Mode>;

/// Pin F10.
pub type PF10<Mode> = Pin<Gpiof, U10, Mode>;

impl<Mode> marker::IntoAf4 for PF0<Mode> {

}

impl<Mode> marker::IntoAf6 for PF0<Mode> {

}

impl<Mode> marker::IntoAf4 for PF1<Mode> {

}

impl<Mode> marker::IntoAf1 for PF2<Mode> {

}

impl<Mode> marker::IntoAf1 for PF4<Mode> {

}

impl<Mode> marker::IntoAf2 for PF4<Mode> {

}

impl<Mode> marker::IntoAf1 for PF6<Mode> {

}

impl<Mode> marker::IntoAf2 for PF6<Mode> {

}

impl<Mode> marker::IntoAf4 for PF6<Mode> {

}

impl<Mode> marker::IntoAf7 for PF6<Mode> {

}

impl<Mode> marker::IntoAf1 for PF9<Mode> {

}

impl<Mode> marker::IntoAf3 for PF9<Mode> {

}

impl<Mode> marker::IntoAf5 for PF9<Mode> {

}

impl<Mode> marker::IntoAf1 for PF10<Mode> {

}

impl<Mode> marker::IntoAf3 for PF10<Mode> {

}

impl<Mode> marker::IntoAf5 for PF10<Mode> {

}

/// GPIO parts: the bank's register block together with one pin handle
/// per physical pin, each typed with the pin's documented power-on-reset
/// mode.
pub struct Parts {
    /// The bank's register block.
    pub regs: GpioRegisters,
    /// Pin F0.
    pub pf0: PF0<Input>,
    /// Pin F1.
    pub pf1: PF1<Input>,
    /// Pin F2.
    pub pf2: PF2<Input>,
    /// Pin F4.
    pub pf4: PF4<Input>,
    /// Pin F6.
    pub pf6: PF6<Input>,
    /// Pin F9.
    pub pf9: PF9<Input>,
    /// Pin F10.
    pub pf10: PF10<Input>,
}

impl GpioExt for Gpiof {
    type Parts = Parts;

    /// Enables the bank's clock, pulses its reset line, and hands out
    /// the register block in its documented power-on-reset state along
    /// with one handle per pin.
    fn split(self, ahb: &mut Ahb) -> (parts: Parts)
        ensures
            final(ahb).enr == field_set(old(ahb).enr, 1, 22, 1),
            final(ahb).rstr == field_set(old(ahb).rstr, 1, 22, 0),
            parts.regs.state() == (RegView {
                port: 5,
                moder: 0,
                otyper: 0,
                ospeedr: 0,
                pupdr: 0,
                afrl: 0,
                afrh: 0,
                idr: 0,
                odr: 0,
            }),
            parts.pf0.spec_port() == 5,
            parts.pf0.spec_index() == 0,
            parts.pf1.spec_port() == 5,
            parts.pf1.spec_index() == 1,
            parts.pf2.spec_port() == 5,
            parts.pf2.spec_index() == 2,
            parts.pf4.spec_port() == 5,
            parts.pf4.spec_index() == 4,
            parts.pf6.spec_port() == 5,
            parts.pf6.spec_index() == 6,
            parts.pf9.spec_port() == 5,
            parts.pf9.spec_index() == 9,
            parts.pf10.spec_port() == 5,
            parts.pf10.spec_index() == 10,
    {
        enable_and_reset(ahb, 22);
        Parts {
            regs: GpioRegisters {
                port: 5,
                moder: 0,
                otyper: 0,
                ospeedr: 0,
                pupdr: 0,
                afrl: 0,
                afrh: 0,
                idr: 0,
                odr: 0,
            },
            pf0: Pin::new(Gpiof, U0),
            pf1: Pin::new(Gpiof, U1),
            pf2: Pin::new(Gpiof, U2),
            pf4: Pin::new(Gpiof, U4),
            pf6: Pin::new(Gpiof, U6),
            pf9: Pin::new(Gpiof, U9),
            pf10: Pin::new(Gpiof, U10),
        }
    }
}

} // verus!
