//! All pins and associated registers for GPIO port D.

use vstd::prelude::*;

use crate::field::field_set;
use crate::gpio::{Gpio, GpioExt, Input, Pin, U0, U1, U10, U11, U12, U13, U14, U15, U2, U3, U4, U5, U6, U7, U8, U9, Ux};
use crate::marker;
use crate::reg::{enable_and_reset, Ahb, GpioRegExt, GpioRegisters, RegView};

verus! {

/// GPIO port D (type state).
pub struct Gpiod;

impl Gpio for Gpiod {
    open spec fn spec_port_index(&self) -> u8 {
        3
    }

    fn port_index(&self) -> (r: u8) {
        3
    }
}

impl marker::Gpio for Gpiod {

}

/// Partially erased pin of port D.
pub type PDx<Mode> = Pin<Gpiod, Ux, Mode>;

/// Pin D0.
pub type PD0<Mode> = Pin<Gpiod, U0, Mode>;

/// Pin D1.
pub type PD1<Mode> = Pin<Gpiod, U1, Mode>;

/// Pin D2.
pub type PD2<Mode> = Pin<Gpiod, U2, Mode>;

/// Pin D3.
pub type PD3<Mode> = Pin<Gpiod, U3, Mode>;

/// Pin D4.
pub type PD4<Mode> = Pin<Gpiod, U4, Mode>;

/// Pin D5.
pub type PD5<Mode> = Pin<Gpiod, U5, Mode>;

/// Pin D6.
pub type PD6<Mode> = Pin<Gpiod, U6, Mode>;

/// Pin D7.
pub type PD7<Mode> = Pin<Gpiod, U7, Mode>;

/// Pin D8.
pub type PD8<Mode> = Pin<Gpiod, U8, Mode>;

/// Pin D9.
pub type PD9<Mode> = Pin<Gpiod, U9, Mode>;

/// Pin D10.
pub type PD10<Mode> = Pin<Gpiod, U10, Mode>;

/// Pin D11.
pub type PD11<Mode> = Pin<Gpiod, U11, Mode>;

/// Pin D12.
pub type PD12<Mode> = Pin<Gpiod, U12, Mode>;

/// Pin D13.
pub type PD13<Mode> = Pin<Gpiod, U13, Mode>;

/// Pin D14.
pub type PD14<Mode> = Pin<Gpiod, U14, Mode>;

/// Pin D15.
pub type PD15<Mode> = Pin<Gpiod, U15, Mode>;

impl<Mode> marker::IntoAf1 for PD0<Mode> {

}

impl<Mode> marker::IntoAf7 for PD0<Mode> {

}

impl<Mode> marker::IntoAf1 for PD1<Mode> {

}

impl<Mode> marker::IntoAf4 for PD1<Mode> {

}

impl<Mode> marker::IntoAf6 for PD1<Mode> {

}

impl<Mode> marker::IntoAf7 for PD1<Mode> {

}

impl<Mode> marker::IntoAf1 for PD2<Mode> {

}

impl<Mode> marker::IntoAf2 for PD2<Mode> {

}

impl<Mode> marker::IntoAf4 for PD2<Mode> {

}

impl<Mode> marker::IntoAf5 for PD2<Mode> {

}

impl<Mode> marker::IntoAf1 for PD3<Mode> {

}

impl<Mode> marker::IntoAf2 for PD3<Mode> {

}

impl<Mode> marker::IntoAf7 for PD3<Mode> {

}

impl<Mode> marker::IntoAf1 for PD4<Mode> {

}

impl<Mode> marker::IntoAf2 for PD4<Mode> {

}

impl<Mode> marker::IntoAf7 for PD4<Mode> {

}

impl<Mode> marker::IntoAf1 for PD5<Mode> {

}

impl<Mode> marker::IntoAf7 for PD5<Mode> {

}

impl<Mode> marker::IntoAf1 for PD6<Mode> {

}

impl<Mode> marker::IntoAf2 for PD6<Mode> {

}

impl<Mode> marker::IntoAf7 for PD6<Mode> {

}

impl<Mode> marker::IntoAf1 for PD7<Mode> {

}

impl<Mode> marker::IntoAf2 for PD7<Mode> {

}

impl<Mode> marker::IntoAf7 for PD7<Mode> {

}

impl<Mode> marker::IntoAf1 for PD8<Mode> {

}

impl<Mode> marker::IntoAf7 for PD8<Mode> {

}

impl<Mode> marker::IntoAf1 for PD9<Mode> {

}

impl<Mode> marker::IntoAf7 for PD9<Mode> {

}

impl<Mode> marker::IntoAf1 for PD10<Mode> {

}

impl<Mode> marker::IntoAf7 for PD10<Mode> {

}

impl<Mode> marker::IntoAf1 for PD11<Mode> {

}

impl<Mode> marker::IntoAf7 for PD11<Mode> {

}

impl<Mode> marker::IntoAf1 for PD12<Mode> {

}

impl<Mode> marker::IntoAf2 for PD12<Mode> {

}

impl<Mode> marker::IntoAf3 for PD12<Mode> {

}

impl<Mode> marker::IntoAf7 for PD12<Mode> {

}

impl<Mode> marker::IntoAf1 for PD13<Mode> {

}

impl<Mode> marker::IntoAf2 for PD13<Mode> {

}

impl<Mode> marker::IntoAf3 for PD13<Mode> {

}

impl<Mode> marker::IntoAf1 for PD14<Mode> {

}

impl<Mode> marker::IntoAf2 for PD14<Mode> {

}

impl<Mode> marker::IntoAf3 for PD14<Mode> {

}

impl<Mode> marker::IntoAf1 for PD15<Mode> {

}

impl<Mode> marker::IntoAf2 for PD15<Mode> {

}

impl<Mode> marker::IntoAf3 for PD15<Mode> {

}

impl<Mode> marker::IntoAf6 for PD15<Mode> {

}

/// GPIO parts: the bank's register block together with one pin handle
/// per physical pin, each typed with the pin's documented power-on-reset
/// mode.
pub struct Parts {
    /// The bank's register block.
    pub regs: GpioRegisters,
    /// Pin D0.
    pub pd0: PD0<Input>,
    /// Pin D1.
    pub pd1: PD1<Input>,
    /// Pin D2.
    pub pd2: PD2<Input>,
    /// Pin D3.
    pub pd3: PD3<Input>,
    /// Pin D4.
    pub pd4: PD4<Input>,
    /// Pin D5.
    pub pd5: PD5<Input>,
    /// Pin D6.
    pub pd6: PD6<Input>,
    /// Pin D7.
    pub pd7: PD7<Input>,
    /// Pin D8.
    pub pd8: PD8<Input>,
    /// Pin D9.
    pub pd9: PD9<Input>,
    /// Pin D10.
    pub pd10: PD10<Input>,
    /// Pin D11.
    pub pd11: PD11<Input>,
    /// Pin D12.
    pub pd12: PD12<Input>,
    /// Pin D13.
    pub pd13: PD13<Input>,
    /// Pin D14.
    pub pd14: PD14<Input>,
    /// Pin D15.
    pub pd15: PD15<Input>,
}

impl GpioExt for Gpiod {
    type Parts = Parts;

    /// Enables the bank's clock, pulses its reset line, and hands out
    /// the register block in its documented power-on-reset state along
    /// with one handle per pin.
    fn split(self, ahb: &mut Ahb) -> (parts: Parts)
        ensures
            final(ahb).enr == field_set(old(ahb).enr, 1, 20, 1),
            final(ahb).rstr == field_set(old(ahb).rstr, 1, 20, 0),
            parts.regs.state() == (RegView {
                port: 3,
                moder: 0,
                otyper: 0,
                ospeedr: 0,
                pupdr: 0,
                afrl: 0,
                afrh: 0,
                idr: 0,
                odr: 0,
            }),
            parts.pd0.spec_port() == 3,
            parts.pd0.spec_index() == 0,
            parts.pd1.spec_port() == 3,
            parts.pd1.spec_index() == 1,
            parts.pd2.spec_port() == 3,
            parts.pd2.spec_index() == 2,
            parts.pd3.spec_port() == 3,
            parts.pd3.spec_index() == 3,
            parts.pd4.spec_port() == 3,
            parts.pd4.spec_index() == 4,
            parts.pd5.spec_port() == 3,
            parts.pd5.spec_index() == 5,
            parts.pd6.spec_port() == 3,
            parts.pd6.spec_index() == 6,
            parts.pd7.spec_port() == 3,
            parts.pd7.spec_index() == 7,
            parts.pd8.spec_port() == 3,
            parts.pd8.spec_index() == 8,
            parts.pd9.spec_port() == 3,
            parts.pd9.spec_index() == 9,
            parts.pd10.spec_port() == 3,
            parts.pd10.spec_index() == 10,
            parts.pd11.spec_port() == 3,
            parts.pd11.spec_index() == 11,
            parts.pd12.spec_port() == 3,
            parts.pd12.spec_index() == 12,
            parts.pd13.spec_port() == 3,
            parts.pd13.spec_index() == 13,
            parts.pd14.spec_port() == 3,
            parts.pd14.spec_index() == 14,
            parts.pd15.spec_port() == 3,
            parts.pd15.spec_index() == 15,
    {
        enable_and_reset(ahb, 20);
        Parts {
            regs: GpioRegisters {
                port: 3,
                moder: 0,
                otyper: 0,
                ospeedr: 0,
                pupdr: 0,
                afrl: 0,
                afrh: 0,
                idr: 0,
                odr: 0,
            },
            pd0: Pin::new(Gpiod, U0),
            pd1: Pin::new(Gpiod, U1),
            pd2: Pin::new(Gpiod, U2),
            pd3: Pin::new(Gpiod, U3),
            pd4: Pin::new(Gpiod, U4),
            pd5: Pin::new(Gpiod, U5),
            pd6: Pin::new(Gpiod, U6),
            pd7: Pin::new(Gpiod, U7),
            pd8: Pin::new(Gpiod, U8),
            pd9: Pin::new(Gpiod, U9),
            pd10: Pin::new(Gpiod, U10),
            pd11: Pin::new(Gpiod, U11),
            pd12: Pin::new(Gpiod, U12),
            pd13: Pin::new(Gpiod, U13),
            pd14: Pin::new(Gpiod, U14),
            pd15: Pin::new(Gpiod, U15),
        }
    }
}

} // verus!
