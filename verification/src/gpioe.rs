//! All pins and associated registers for GPIO port E.

use vstd::prelude::*;

use crate::field::field_set;
use crate::gpio::{Gpio, GpioExt, Input, Pin, U0, U1, U10, U11, U12, U13, U14, U15, U2, U3, U4, U5, U6, U7, U8, U9, Ux};
use crate::marker;
use crate::reg::{enable_and_reset, Ahb, GpioRegExt, GpioRegisters, RegView};

verus! {

/// GPIO port E (type state).
pub struct Gpioe;

impl Gpio for Gpioe {
    open spec fn spec_port_index(&self) -> u8 {
        4
    }

    fn port_index(&self) -> (r: u8) {
        4
    }
}

impl marker::Gpio for Gpioe {

}

/// Partially erased pin of port E.
pub type PEx<Mode> = Pin<Gpioe, Ux, Mode>;

/// Pin E0.
pub type PE0<Mode> = Pin<Gpioe, U0, Mode>;

/// Pin E1.
pub type PE1<Mode> = Pin<Gpioe, U1, Mode>;

/// Pin E2.
pub type PE2<Mode> = Pin<Gpioe, U2, Mode>;

/// Pin E3.
pub type PE3<Mode> = Pin<Gpioe, U3, Mode>;

/// Pin E4.
pub type PE4<Mode> = Pin<Gpioe, U4, Mode>;

/// Pin E5.
pub type PE5<Mode> = Pin<Gpioe, U5, Mode>;

/// Pin E6.
pub type PE6<Mode> = Pin<Gpioe, U6, Mode>;

/// Pin E7.
pub type PE7<Mode> = Pin<Gpioe, U7, Mode>;

/// Pin E8.
pub type PE8<Mode> = Pin<Gpioe, U8, Mode>;

/// Pin E9.
pub type PE9<Mode> = Pin<Gpioe, U9, Mode>;

/// Pin E10.
pub type PE10<Mode> = Pin<Gpioe, U10, Mode>;

/// Pin E11.
pub type PE11<Mode> = Pin<Gpioe, U11, Mode>;

/// Pin E12.
pub type PE12<Mode> = Pin<Gpioe, U12, Mode>;

/// Pin E13.
pub type PE13<Mode> = Pin<Gpioe, U13, Mode>;

/// Pin E14.
pub type PE14<Mode> = Pin<Gpioe, U14, Mode>;

/// Pin E15.
pub type PE15<Mode> = Pin<Gpioe, U15, Mode>;

impl<Mode> marker::IntoAf1 for PE0<Mode> {

}

impl<Mode> marker::IntoAf2 for PE0<Mode> {

}

impl<Mode> marker::IntoAf4 for PE0<Mode> {

}

impl<Mode> marker::IntoAf7 for PE0<Mode> {

}

impl<Mode> marker::IntoAf1 for PE1<Mode> {

}

impl<Mode> marker::IntoAf4 for PE1<Mode> {

}

impl<Mode> marker::IntoAf7 for PE1<Mode> {

}

impl<Mode> marker::IntoAf0 for PE2<Mode> {

}

impl<Mode> marker::IntoAf1 for PE2<Mode> {

}

impl<Mode> marker::IntoAf2 for PE2<Mode> {

}

impl<Mode> marker::IntoAf3 for PE2<Mode> {

}

impl<Mode> marker::IntoAf0 for PE3<Mode> {

}

impl<Mode> marker::IntoAf1 for PE3<Mode> {

}

impl<Mode> marker::IntoAf2 for PE3<Mode> {

}

impl<Mode> marker::IntoAf3 for PE3<Mode> {

}

impl<Mode> marker::IntoAf0 for PE4<Mode> {

}

impl<Mode> marker::IntoAf1 for PE4<Mode> {

}

impl<Mode> marker::IntoAf2 for PE4<Mode> {

}

impl<Mode> marker::IntoAf3 for PE4<Mode> {

}

impl<Mode> marker::IntoAf0 for PE5<Mode> {

}

impl<Mode> marker::IntoAf1 for PE5<Mode> {

}

impl<Mode> marker::IntoAf2 for PE5<Mode> {

}

impl<Mode> marker::IntoAf3 for PE5<Mode> {

}

impl<Mode> marker::IntoAf0 for PE6<Mode> {

}

impl<Mode> marker::IntoAf1 for PE6<Mode> {

}

impl<Mode> marker::IntoAf1 for PE7<Mode> {

}

impl<Mode> marker::IntoAf2 for PE7<Mode> {

}

impl<Mode> marker::IntoAf1 for PE8<Mode> {

}

impl<Mode> marker::IntoAf2 for PE8<Mode> {

}

impl<Mode> marker::IntoAf1 for PE9<Mode> {

}

impl<Mode> marker::IntoAf2 for PE9<Mode> {

}

impl<Mode> marker::IntoAf1 for PE10<Mode> {

}

impl<Mode> marker::IntoAf2 for PE10<Mode> {

}

impl<Mode> marker::IntoAf1 for PE11<Mode> {

}

impl<Mode> marker::IntoAf2 for PE11<Mode> {

}

impl<Mode> marker::IntoAf1 for PE12<Mode> {

}

impl<Mode> marker::IntoAf2 for PE12<Mode> {

}

impl<Mode> marker::IntoAf1 for PE13<Mode> {

}

impl<Mode> marker::IntoAf2 for PE13<Mode> {

}

impl<Mode> marker::IntoAf1 for PE14<Mode> {

}

impl<Mode> marker::IntoAf2 for PE14<Mode> {

}

impl<Mode> marker::IntoAf6 for PE14<Mode> {

}

impl<Mode> marker::IntoAf1 for PE15<Mode> {

}

impl<Mode> marker::IntoAf2 for PE15<Mode> {

}

impl<Mode> marker::IntoAf7 for PE15<Mode> {

}

/// GPIO parts: the bank's register block together with one pin handle
/// per physical pin, each typed with the pin's documented power-on-reset
/// mode.
pub struct Parts {
    /// The bank's register block.
    pub regs: GpioRegisters,
    /// Pin E0.
    pub pe0: PE0<Input>,
    /// Pin E1.
    pub pe1: PE1<Input>,
    /// Pin E2.
    pub pe2: PE2<Input>,
    /// Pin E3.
    pub pe3: PE3<Input>,
    /// Pin E4.
    pub pe4: PE4<Input>,
    /// Pin E5.
    pub pe5: PE5<Input>,
    /// Pin E6.
    pub pe6: PE6<Input>,
    /// Pin E7.
    pub pe7: PE7<Input>,
    /// Pin E8.
    pub pe8: PE8<Input>,
    /// Pin E9.
    pub pe9: PE9<Input>,
    /// Pin E10.
    pub pe10: PE10<Input>,
    /// Pin E11.
    pub pe11: PE11<Input>,
    /// Pin E12.
    pub pe12: PE12<Input>,
    /// Pin E13.
    pub pe13: PE13<Input>,
    /// Pin E14.
    pub pe14: PE14<Input>,
    /// Pin E15.
    pub pe15: PE15<Input>,
}

impl GpioExt for Gpioe {
    type Parts = Parts;

    /// Enables the bank's clock, pulses its reset line, and hands out
    /// the register block in its documented power-on-reset state along
    /// with one handle per pin.
    fn split(self, ahb: &mut Ahb) -> (parts: Parts)
        ensures
            final(ahb).enr == field_set(old(ahb).enr, 1, 21, 1),
            final(ahb).rstr == field_set(old(ahb).rstr, 1, 21, 0),
            parts.regs.state() == (RegView {
                port: 4,
                moder: 0,
                otyper: 0,
                ospeedr: 0,
                pupdr: 0,
                afrl: 0,
                afrh: 0,
                idr: 0,
                odr: 0,
            }),
            parts.pe0.spec_port() == 4,
            parts.pe0.spec_index() == 0,
            parts.pe1.spec_port() == 4,
            parts.pe1.spec_index() == 1,
            parts.pe2.spec_port() == 4,
            parts.pe2.spec_index() == 2,
            parts.pe3.spec_port() == 4,
            parts.pe3.spec_index() == 3,
            parts.pe4.spec_port() == 4,
            parts.pe4.spec_index() == 4,
            parts.pe5.spec_port() == 4,
            parts.pe5.spec_index() == 5,
            parts.pe6.spec_port() == 4,
            parts.pe6.spec_index() == 6,
            parts.pe7.spec_port() == 4,
            parts.pe7.spec_index() == 7,
            parts.pe8.spec_port() == 4,
            parts.pe8.spec_index() == 8,
            parts.pe9.spec_port() == 4,
            parts.pe9.spec_index() == 9,
            parts.pe10.spec_port() == 4,
            parts.pe10.spec_index() == 10,
            parts.pe11.spec_port() == 4,
            parts.pe11.spec_index() == 11,
            parts.pe12.spec_port() == 4,
            parts.pe12.spec_index() == 12,
            parts.pe13.spec_port() == 4,
            parts.pe13.spec_index() == 13,
            parts.pe14.spec_port() == 4,
            parts.pe14.spec_index() == 14,
            parts.pe15.spec_port() == 4,
            parts.pe15.spec_index() == 15,
    {
        enable_and_reset(ahb, 21);
        Parts {
            regs: GpioRegisters {
                port: 4,
                moder: 0,
                otyper: 0,
                ospeedr: 0,
                pupdr: 0,
                afrl: 0,
                afrh: 0,
                idr: 0,
                odr: 0,
            },
            pe0: Pin::new(Gpioe, U0),
            pe1: Pin::new(Gpioe, U1),
            pe2: Pin::new(Gpioe, U2),
            pe3: Pin::new(Gpioe, U3),
            pe4: Pin::new(Gpioe, U4),
            pe5: Pin::new(Gpioe, U5),
            pe6: Pin::new(Gpioe, U6),
            pe7: Pin::new(Gpioe, U7),
            pe8: Pin::new(Gpioe, U8),
            pe9: Pin::new(Gpioe, U9),
            pe10: Pin::new(Gpioe, U10),
            pe11: Pin::new(Gpioe, U11),
            pe12: Pin::new(Gpioe, U12),
            pe13: Pin::new(Gpioe, U13),
            pe14: Pin::new(Gpioe, U14),
            pe15: Pin::new(Gpioe, U15),
        }
    }
}

} // verus!
