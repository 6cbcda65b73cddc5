//! All pins and associated registers for GPIO port A.

use vstd::prelude::*;

use crate::field::field_set;
use crate::gpio::{AF0, Gpio, GpioExt, Input, Pin, PushPull, U0, U1, U10, U11, U12, U13, U14, U15, U2, U3, U4, U5, U6, U7, U8, U9, Ux};
use crate::marker;
use crate::reg::{enable_and_reset, Ahb, GpioRegExt, GpioRegisters, RegView};

verus! {

/// GPIO port A (type state).
pub struct Gpioa;

impl Gpio for Gpioa {
    open spec fn spec_port_index(&self) -> u8 {
        0
    }

    fn port_index(&self) -> (r: u8) {
        0
    }
}

impl marker::Gpio for Gpioa {

}

/// Partially erased pin of port A.
pub type PAx<Mode> = Pin<Gpioa, Ux, Mode>;

/// Pin A0.
pub type PA0<Mode> = Pin<Gpioa, U0, Mode>;

/// Pin A1.
pub type PA1<Mode> = Pin<Gpioa, U1, Mode>;

/// Pin A2.
pub type PA2<Mode> = Pin<Gpioa, U2, Mode>;

/// Pin A3.
pub type PA3<Mode> = Pin<Gpioa, U3, Mode>;

/// Pin A4.
pub type PA4<Mode> = Pin<Gpioa, U4, Mode>;

/// Pin A5.
pub type PA5<Mode> = Pin<Gpioa, U5, Mode>;

/// Pin A6.
pub type PA6<Mode> = Pin<Gpioa, U6, Mode>;

/// Pin A7.
pub type PA7<Mode> = Pin<Gpioa, U7, Mode>;

/// Pin A8.
pub type PA8<Mode> = Pin<Gpioa, U8, Mode>;

/// Pin A9.
pub type PA9<Mode> = Pin<Gpioa, U9, Mode>;

/// Pin A10.
pub type PA10<Mode> = Pin<Gpioa, U10, Mode>;

/// Pin A11.
pub type PA11<Mode> = Pin<Gpioa, U11, Mode>;

/// Pin A12.
pub type PA12<Mode> = Pin<Gpioa, U12, Mode>;

/// Pin A13.
pub type PA13<Mode> = Pin<Gpioa, U13, Mode>;

/// Pin A14.
pub type PA14<Mode> = Pin<Gpioa, U14, Mode>;

/// Pin A15.
pub type PA15<Mode> = Pin<Gpioa, U15, Mode>;

impl<Mode> marker::IntoAf1 for PA0<Mode> {

}

impl<Mode> marker::IntoAf3 for PA0<Mode> {

}

impl<Mode> marker::IntoAf7 for PA0<Mode> {

}

impl<Mode> marker::IntoAf8 for PA0<Mode> {

}

impl<Mode> marker::IntoAf9 for PA0<Mode> {

}

impl<Mode> marker::IntoAf10 for PA0<Mode> {

}

impl<Mode> marker::IntoAf15 for PA0<Mode> {

}

impl<Mode> marker::IntoAf0 for PA1<Mode> {

}

impl<Mode> marker::IntoAf1 for PA1<Mode> {

}

impl<Mode> marker::IntoAf3 for PA1<Mode> {

}

impl<Mode> marker::IntoAf7 for PA1<Mode> {

}

impl<Mode> marker::IntoAf9 for PA1<Mode> {

}

impl<Mode> marker::IntoAf15 for PA1<Mode> {

}

impl<Mode> marker::IntoAf1 for PA2<Mode> {

}

impl<Mode> marker::IntoAf3 for PA2<Mode> {

}

impl<Mode> marker::IntoAf7 for PA2<Mode> {

}

impl<Mode> marker::IntoAf8 for PA2<Mode> {

}

impl<Mode> marker::IntoAf9 for PA2<Mode> {

}

impl<Mode> marker::IntoAf15 for PA2<Mode> {

}

impl<Mode> marker::IntoAf1 for PA3<Mode> {

}

impl<Mode> marker::IntoAf3 for PA3<Mode> {

}

impl<Mode> marker::IntoAf7 for PA3<Mode> {

}

impl<Mode> marker::IntoAf9 for PA3<Mode> {

}

impl<Mode> marker::IntoAf15 for PA3<Mode> {

}

impl<Mode> marker::IntoAf2 for PA4<Mode> {

}

impl<Mode> marker::IntoAf3 for PA4<Mode> {

}

impl<Mode> marker::IntoAf5 for PA4<Mode> {

}

impl<Mode> marker::IntoAf6 for PA4<Mode> {

}

impl<Mode> marker::IntoAf7 for PA4<Mode> {

}

impl<Mode> marker::IntoAf15 for PA4<Mode> {

}

impl<Mode> marker::IntoAf1 for PA5<Mode> {

}

impl<Mode> marker::IntoAf3 for PA5<Mode> {

}

impl<Mode> marker::IntoAf5 for PA5<Mode> {

}

impl<Mode> marker::IntoAf15 for PA5<Mode> {

}

impl<Mode> marker::IntoAf1 for PA6<Mode> {

}

impl<Mode> marker::IntoAf2 for PA6<Mode> {

}

impl<Mode> marker::IntoAf3 for PA6<Mode> {

}

impl<Mode> marker::IntoAf4 for PA6<Mode> {

}

impl<Mode> marker::IntoAf5 for PA6<Mode> {

}

impl<Mode> marker::IntoAf6 for PA6<Mode> {

}

impl<Mode> marker::IntoAf8 for PA6<Mode> {

}

impl<Mode> marker::IntoAf15 for PA6<Mode> {

}

impl<Mode> marker::IntoAf1 for PA7<Mode> {

}

impl<Mode> marker::IntoAf2 for PA7<Mode> {

}

impl<Mode> marker::IntoAf3 for PA7<Mode> {

}

impl<Mode> marker::IntoAf4 for PA7<Mode> {

}

impl<Mode> marker::IntoAf5 for PA7<Mode> {

}

impl<Mode> marker::IntoAf6 for PA7<Mode> {

}

impl<Mode> marker::IntoAf8 for PA7<Mode> {

}

impl<Mode> marker::IntoAf15 for PA7<Mode> {

}

impl<Mode> marker::IntoAf0 for PA8<Mode> {

}

impl<Mode> marker::IntoAf4 for PA8<Mode> {

}

impl<Mode> marker::IntoAf5 for PA8<Mode> {

}

impl<Mode> marker::IntoAf6 for PA8<Mode> {

}

impl<Mode> marker::IntoAf7 for PA8<Mode> {

}

impl<Mode> marker::IntoAf8 for PA8<Mode> {

}

impl<Mode> marker::IntoAf10 for PA8<Mode> {

}

impl<Mode> marker::IntoAf15 for PA8<Mode> {

}

impl<Mode> marker::IntoAf3 for PA9<Mode> {

}

impl<Mode> marker::IntoAf4 for PA9<Mode> {

}

impl<Mode> marker::IntoAf5 for PA9<Mode> {

}

impl<Mode> marker::IntoAf6 for PA9<Mode> {

}

impl<Mode> marker::IntoAf7 for PA9<Mode> {

}

impl<Mode> marker::IntoAf8 for PA9<Mode> {

}

impl<Mode> marker::IntoAf9 for PA9<Mode> {

}

impl<Mode> marker::IntoAf10 for PA9<Mode> {

}

impl<Mode> marker::IntoAf15 for PA9<Mode> {

}

impl<Mode> marker::IntoAf1 for PA10<Mode> {

}

impl<Mode> marker::IntoAf3 for PA10<Mode> {

}

impl<Mode> marker::IntoAf4 for PA10<Mode> {

}

impl<Mode> marker::IntoAf6 for PA10<Mode> {

}

impl<Mode> marker::IntoAf7 for PA10<Mode> {

}

impl<Mode> marker::IntoAf8 for PA10<Mode> {

}

impl<Mode> marker::IntoAf10 for PA10<Mode> {

}

impl<Mode> marker::IntoAf11 for PA10<Mode> {

}

impl<Mode> marker::IntoAf15 for PA10<Mode> {

}

impl<Mode> marker::IntoAf6 for PA11<Mode> {

}

impl<Mode> marker::IntoAf7 for PA11<Mode> {

}

impl<Mode> marker::IntoAf8 for PA11<Mode> {

}

impl<Mode> marker::IntoAf9 for PA11<Mode> {

}

impl<Mode> marker::IntoAf10 for PA11<Mode> {

}

impl<Mode> marker::IntoAf11 for PA11<Mode> {

}

impl<Mode> marker::IntoAf12 for PA11<Mode> {

}

impl<Mode> marker::IntoAf14 for PA11<Mode> {

}

impl<Mode> marker::IntoAf15 for PA11<Mode> {

}

impl<Mode> marker::IntoAf1 for PA12<Mode> {

}

impl<Mode> marker::IntoAf6 for PA12<Mode> {

}

impl<Mode> marker::IntoAf7 for PA12<Mode> {

}

impl<Mode> marker::IntoAf8 for PA12<Mode> {

}

impl<Mode> marker::IntoAf9 for PA12<Mode> {

}

impl<Mode> marker::IntoAf10 for PA12<Mode> {

}

impl<Mode> marker::IntoAf11 for PA12<Mode> {

}

impl<Mode> marker::IntoAf14 for PA12<Mode> {

}

impl<Mode> marker::IntoAf15 for PA12<Mode> {

}

impl<Mode> marker::IntoAf0 for PA13<Mode> {

}

impl<Mode> marker::IntoAf1 for PA13<Mode> {

}

impl<Mode> marker::IntoAf3 for PA13<Mode> {

}

impl<Mode> marker::IntoAf5 for PA13<Mode> {

}

impl<Mode> marker::IntoAf7 for PA13<Mode> {

}

impl<Mode> marker::IntoAf10 for PA13<Mode> {

}

impl<Mode> marker::IntoAf15 for PA13<Mode> {

}

impl<Mode> marker::IntoAf0 for PA14<Mode> {

}

impl<Mode> marker::IntoAf3 for PA14<Mode> {

}

impl<Mode> marker::IntoAf4 for PA14<Mode> {

}

impl<Mode> marker::IntoAf5 for PA14<Mode> {

}

impl<Mode> marker::IntoAf6 for PA14<Mode> {

}

impl<Mode> marker::IntoAf7 for PA14<Mode> {

}

impl<Mode> marker::IntoAf15 for PA14<Mode> {

}

impl<Mode> marker::IntoAf0 for PA15<Mode> {

}

impl<Mode> marker::IntoAf1 for PA15<Mode> {

}

impl<Mode> marker::IntoAf2 for PA15<Mode> {

}

impl<Mode> marker::IntoAf4 for PA15<Mode> {

}

impl<Mode> marker::IntoAf5 for PA15<Mode> {

}

impl<Mode> marker::IntoAf6 for PA15<Mode> {

}

impl<Mode> marker::IntoAf7 for PA15<Mode> {

}

impl<Mode> marker::IntoAf9 for PA15<Mode> {

}

impl<Mode> marker::IntoAf15 for PA15<Mode> {

}

/// GPIO parts: the bank's register block together with one pin handle
/// per physical pin, each typed with the pin's documented power-on-reset
/// mode.
pub struct Parts {
    /// The bank's register block.
    pub regs: GpioRegisters,
    /// Pin A0.
    pub pa0: PA0<Input>,
    /// Pin A1.
    pub pa1: PA1<Input>,
    /// Pin A2.
    pub pa2: PA2<Input>,
    /// Pin A3.
    pub pa3: PA3<Input>,
    /// Pin A4.
    pub pa4: PA4<Input>,
    /// Pin A5.
    pub pa5: PA5<Input>,
    /// Pin A6.
    pub pa6: PA6<Input>,
    /// Pin A7.
    pub pa7: PA7<Input>,
    /// Pin A8.
    pub pa8: PA8<Input>,
    /// Pin A9.
    pub pa9: PA9<Input>,
    /// Pin A10.
    pub pa10: PA10<Input>,
    /// Pin A11.
    pub pa11: PA11<Input>,
    /// Pin A12.
    pub pa12: PA12<Input>,
    /// Pin A13.
    pub pa13: PA13<AF0<PushPull>>,
    /// Pin A14.
    pub pa14: PA14<AF0<PushPull>>,
    /// Pin A15.
    pub pa15: PA15<AF0<PushPull>>,
}

impl GpioExt for Gpioa {
    type Parts = Parts;

    /// Enables the bank's clock, pulses its reset line, and hands out
    /// the register block in its documented power-on-reset state along
    /// with one handle per pin.
    fn split(self, ahb: &mut Ahb) -> (parts: Parts)
        ensures
            final(ahb).enr == field_set(old(ahb).enr, 1, 17, 1),
            final(ahb).rstr == field_set(old(ahb).rstr, 1, 17, 0),
            parts.regs.state() == (RegView {
                port: 0,
                moder: 0xA800_0000,
                otyper: 0,
                ospeedr: 0x0C00_0000,
                pupdr: 0x6400_0000,
                afrl: 0,
                afrh: 0,
                idr: 0,
                odr: 0,
            }),
            parts.pa0.spec_port() == 0,
            parts.pa0.spec_index() == 0,
            parts.pa1.spec_port() == 0,
            parts.pa1.spec_index() == 1,
            parts.pa2.spec_port() == 0,
            parts.pa2.spec_index() == 2,
            parts.pa3.spec_port() == 0,
            parts.pa3.spec_index() == 3,
            parts.pa4.spec_port() == 0,
            parts.pa4.spec_index() == 4,
            parts.pa5.spec_port() == 0,
            parts.pa5.spec_index() == 5,
            parts.pa6.spec_port() == 0,
            parts.pa6.spec_index() == 6,
            parts.pa7.spec_port() == 0,
            parts.pa7.spec_index() == 7,
            parts.pa8.spec_port() == 0,
            parts.pa8.spec_index() == 8,
            parts.pa9.spec_port() == 0,
            parts.pa9.spec_index() == 9,
            parts.pa10.spec_port() == 0,
            parts.pa10.spec_index() == 10,
            parts.pa11.spec_port() == 0,
            parts.pa11.spec_index() == 11,
            parts.pa12.spec_port() == 0,
            parts.pa12.spec_index() == 12,
            parts.pa13.spec_port() == 0,
            parts.pa13.spec_index() == 13,
            parts.pa14.spec_port() == 0,
            parts.pa14.spec_index() == 14,
            parts.pa15.spec_port() == 0,
            parts.pa15.spec_index() == 15,
    {
        enable_and_reset(ahb, 17);
        Parts {
            regs: GpioRegisters {
                port: 0,
                moder: 0xA800_0000,
                otyper: 0,
                ospeedr: 0x0C00_0000,
                pupdr: 0x6400_0000,
                afrl: 0,
                afrh: 0,
                idr: 0,
                odr: 0,
            },
            pa0: Pin::new(Gpioa, U0),
            pa1: Pin::new(Gpioa, U1),
            pa2: Pin::new(Gpioa, U2),
            pa3: Pin::new(Gpioa, U3),
            pa4: Pin::new(Gpioa, U4),
            pa5: Pin::new(Gpioa, U5),
            pa6: Pin::new(Gpioa, U6),
            pa7: Pin::new(Gpioa, U7),
            pa8: Pin::new(Gpioa, U8),
            pa9: Pin::new(Gpioa, U9),
            pa10: Pin::new(Gpioa, U10),
            pa11: Pin::new(Gpioa, U11),
            pa12: Pin::new(Gpioa, U12),
            pa13: Pin::new(Gpioa, U13),
            pa14: Pin::new(Gpioa, U14),
            pa15: Pin::new(Gpioa, U15),
        }
    }
}

} // verus!
