//! All pins and associated registers for GPIO port B.

use vstd::prelude::*;

use crate::field::field_set;
use crate::gpio::{AF0, Gpio, GpioExt, Input, Pin, PushPull, U0, U1, U10, U11, U12, U13, U14, U15, U2, U3, U4, U5, U6, U7, U8, U9, Ux};
use crate::marker;
use crate::reg::{enable_and_reset, Ahb, GpioRegExt, GpioRegisters, RegView};

verus! {

/// GPIO port B (type state).
pub struct Gpiob;

impl Gpio for Gpiob {
    open spec fn spec_port_index(&self) -> u8 {
        1
    }

    fn port_index(&self) -> (r: u8) {
        1
    }
}

impl marker::Gpio for Gpiob {

}

/// Partially erased pin of port B.
pub type PBx<Mode> = Pin<Gpiob, Ux, Mode>;

/// Pin B0.
pub type PB0<Mode> = Pin<Gpiob, U0, Mode>;

/// Pin B1.
pub type PB1<Mode> = Pin<Gpiob, U1, Mode>;

/// Pin B2.
pub type PB2<Mode> = Pin<Gpiob, U2, Mode>;

/// Pin B3.
pub type PB3<Mode> = Pin<Gpiob, U3, Mode>;

/// Pin B4.
pub type PB4<Mode> = Pin<Gpiob, U4, Mode>;

/// Pin B5.
pub type PB5<Mode> = Pin<Gpiob, U5, Mode>;

/// Pin B6.
pub type PB6<Mode> = Pin<Gpiob, U6, Mode>;

/// Pin B7.
pub type PB7<Mode> = Pin<Gpiob, U7, Mode>;

/// Pin B8.
pub type PB8<Mode> = Pin<Gpiob, U8, Mode>;

/// Pin B9.
pub type PB9<Mode> = Pin<Gpiob, U9, Mode>;

/// Pin B10.
pub type PB10<Mode> = Pin<Gpiob, U10, Mode>;

/// Pin B11.
pub type PB11<Mode> = Pin<Gpiob, U11, Mode>;

/// Pin B12.
pub type PB12<Mode> = Pin<Gpiob, U12, Mode>;

/// Pin B13.
pub type PB13<Mode> = Pin<Gpiob, U13, Mode>;

/// Pin B14.
pub type PB14<Mode> = Pin<Gpiob, U14, Mode>;

/// Pin B15.
pub type PB15<Mode> = Pin<Gpiob, U15, Mode>;

impl<Mode> marker::IntoAf2 for PB0<Mode> {

}

impl<Mode> marker::IntoAf3 for PB0<Mode> {

}

impl<Mode> marker::IntoAf4 for PB0<Mode> {

}

impl<Mode> marker::IntoAf6 for PB0<Mode> {

}

impl<Mode> marker::IntoAf15 for PB0<Mode> {

}

impl<Mode> marker::IntoAf2 for PB1<Mode> {

}

impl<Mode> marker::IntoAf3 for PB1<Mode> {

}

impl<Mode> marker::IntoAf4 for PB1<Mode> {

}

impl<Mode> marker::IntoAf6 for PB1<Mode> {

}

impl<Mode> marker::IntoAf8 for PB1<Mode> {

}

impl<Mode> marker::IntoAf15 for PB1<Mode> {

}

impl<Mode> marker::IntoAf3 for PB2<Mode> {

}

impl<Mode> marker::IntoAf15 for PB2<Mode> {

}

impl<Mode> marker::IntoAf0 for PB3<Mode> {

}

impl<Mode> marker::IntoAf1 for PB3<Mode> {

}

impl<Mode> marker::IntoAf2 for PB3<Mode> {

}

impl<Mode> marker::IntoAf3 for PB3<Mode> {

}

impl<Mode> marker::IntoAf4 for PB3<Mode> {

}

impl<Mode> marker::IntoAf5 for PB3<Mode> {

}

impl<Mode> marker::IntoAf6 for PB3<Mode> {

}

impl<Mode> marker::IntoAf7 for PB3<Mode> {

}

impl<Mode> marker::IntoAf10 for PB3<Mode> {

}

impl<Mode> marker::IntoAf15 for PB3<Mode> {

}

impl<Mode> marker::IntoAf0 for PB4<Mode> {

}

impl<Mode> marker::IntoAf1 for PB4<Mode> {

}

impl<Mode> marker::IntoAf2 for PB4<Mode> {

}

impl<Mode> marker::IntoAf3 for PB4<Mode> {

}

impl<Mode> marker::IntoAf4 for PB4<Mode> {

}

impl<Mode> marker::IntoAf5 for PB4<Mode> {

}

impl<Mode> marker::IntoAf6 for PB4<Mode> {

}

impl<Mode> marker::IntoAf7 for PB4<Mode> {

}

impl<Mode> marker::IntoAf10 for PB4<Mode> {

}

impl<Mode> marker::IntoAf15 for PB4<Mode> {

}

impl<Mode> marker::IntoAf1 for PB5<Mode> {

}

impl<Mode> marker::IntoAf2 for PB5<Mode> {

}

impl<Mode> marker::IntoAf3 for PB5<Mode> {

}

impl<Mode> marker::IntoAf4 for PB5<Mode> {

}

impl<Mode> marker::IntoAf5 for PB5<Mode> {

}

impl<Mode> marker::IntoAf6 for PB5<Mode> {

}

impl<Mode> marker::IntoAf7 for PB5<Mode> {

}

impl<Mode> marker::IntoAf10 for PB5<Mode> {

}

impl<Mode> marker::IntoAf15 for PB5<Mode> {

}

impl<Mode> marker::IntoAf1 for PB6<Mode> {

}

impl<Mode> marker::IntoAf2 for PB6<Mode> {

}

impl<Mode> marker::IntoAf3 for PB6<Mode> {

}

impl<Mode> marker::IntoAf4 for PB6<Mode> {

}

impl<Mode> marker::IntoAf5 for PB6<Mode> {

}

impl<Mode> marker::IntoAf6 for PB6<Mode> {

}

impl<Mode> marker::IntoAf7 for PB6<Mode> {

}

impl<Mode> marker::IntoAf10 for PB6<Mode> {

}

impl<Mode> marker::IntoAf15 for PB6<Mode> {

}

impl<Mode> marker::IntoAf1 for PB7<Mode> {

}

impl<Mode> marker::IntoAf2 for PB7<Mode> {

}

impl<Mode> marker::IntoAf3 for PB7<Mode> {

}

impl<Mode> marker::IntoAf4 for PB7<Mode> {

}

impl<Mode> marker::IntoAf5 for PB7<Mode> {

}

impl<Mode> marker::IntoAf7 for PB7<Mode> {

}

impl<Mode> marker::IntoAf10 for PB7<Mode> {

}

impl<Mode> marker::IntoAf15 for PB7<Mode> {

}

impl<Mode> marker::IntoAf1 for PB8<Mode> {

}

impl<Mode> marker::IntoAf2 for PB8<Mode> {

}

impl<Mode> marker::IntoAf3 for PB8<Mode> {

}

impl<Mode> marker::IntoAf4 for PB8<Mode> {

}

impl<Mode> marker::IntoAf8 for PB8<Mode> {

}

impl<Mode> marker::IntoAf9 for PB8<Mode> {

}

impl<Mode> marker::IntoAf10 for PB8<Mode> {

}

impl<Mode> marker::IntoAf12 for PB8<Mode> {

}

impl<Mode> marker::IntoAf15 for PB8<Mode> {

}

impl<Mode> marker::IntoAf1 for PB9<Mode> {

}

impl<Mode> marker::IntoAf2 for PB9<Mode> {

}

impl<Mode> marker::IntoAf4 for PB9<Mode> {

}

impl<Mode> marker::IntoAf6 for PB9<Mode> {

}

impl<Mode> marker::IntoAf8 for PB9<Mode> {

}

impl<Mode> marker::IntoAf9 for PB9<Mode> {

}

impl<Mode> marker::IntoAf10 for PB9<Mode> {

}

impl<Mode> marker::IntoAf15 for PB9<Mode> {

}

impl<Mode> marker::IntoAf1 for PB10<Mode> {

}

impl<Mode> marker::IntoAf3 for PB10<Mode> {

}

impl<Mode> marker::IntoAf7 for PB10<Mode> {

}

impl<Mode> marker::IntoAf15 for PB10<Mode> {

}

impl<Mode> marker::IntoAf1 for PB11<Mode> {

}

impl<Mode> marker::IntoAf3 for PB11<Mode> {

}

impl<Mode> marker::IntoAf7 for PB11<Mode> {

}

impl<Mode> marker::IntoAf15 for PB11<Mode> {

}

impl<Mode> marker::IntoAf3 for PB12<Mode> {

}

impl<Mode> marker::IntoAf4 for PB12<Mode> {

}

impl<Mode> marker::IntoAf5 for PB12<Mode> {

}

impl<Mode> marker::IntoAf6 for PB12<Mode> {

}

impl<Mode> marker::IntoAf7 for PB12<Mode> {

}

impl<Mode> marker::IntoAf15 for PB12<Mode> {

}

impl<Mode> marker::IntoAf3 for PB13<Mode> {

}

impl<Mode> marker::IntoAf5 for PB13<Mode> {

}

impl<Mode> marker::IntoAf6 for PB13<Mode> {

}

impl<Mode> marker::IntoAf7 for PB13<Mode> {

}

impl<Mode> marker::IntoAf15 for PB13<Mode> {

}

impl<Mode> marker::IntoAf1 for PB14<Mode> {

}

impl<Mode> marker::IntoAf3 for PB14<Mode> {

}

impl<Mode> marker::IntoAf5 for PB14<Mode> {

}

impl<Mode> marker::IntoAf6 for PB14<Mode> {

}

impl<Mode> marker::IntoAf7 for PB14<Mode> {

}

impl<Mode> marker::IntoAf15 for PB14<Mode> {

}

impl<Mode> marker::IntoAf0 for PB15<Mode> {

}

impl<Mode> marker::IntoAf1 for PB15<Mode> {

}

impl<Mode> marker::IntoAf2 for PB15<Mode> {

}

impl<Mode> marker::IntoAf4 for PB15<Mode> {

}

impl<Mode> marker::IntoAf5 for PB15<Mode> {

}

impl<Mode> marker::IntoAf15 for PB15<Mode> {

}

/// GPIO parts: the bank's register block together with one pin handle
/// per physical pin, each typed with the pin's documented power-on-reset
/// mode.
pub struct Parts {
    /// The bank's register block.
    pub regs: GpioRegisters,
    /// Pin B0.
    pub pb0: PB0<Input>,
    /// Pin B1.
    pub pb1: PB1<Input>,
    /// Pin B2.
    pub pb2: PB2<Input>,
    /// Pin B3.
    pub pb3: PB3<AF0<PushPull>>,
    /// Pin B4.
    pub pb4: PB4<AF0<PushPull>>,
    /// Pin B5.
    pub pb5: PB5<Input>,
    /// Pin B6.
    pub pb6: PB6<Input>,
    /// Pin B7.
    pub pb7: PB7<Input>,
    /// Pin B8.
    pub pb8: PB8<Input>,
    /// Pin B9.
    pub pb9: PB9<Input>,
    /// Pin B10.
    pub pb10: PB10<Input>,
    /// Pin B11.
    pub pb11: PB11<Input>,
    /// Pin B12.
    pub pb12: PB12<Input>,
    /// Pin B13.
    pub pb13: PB13<Input>,
    /// Pin B14.
    pub pb14: PB14<Input>,
    /// Pin B15.
    pub pb15: PB15<Input>,
}

impl GpioExt for Gpiob {
    type Parts = Parts;

    /// Enables the bank's clock, pulses its reset line, and hands out
    /// the register block in its documented power-on-reset state along
    /// with one handle per pin.
    fn split(self, ahb: &mut Ahb) -> (parts: Parts)
        ensures
            final(ahb).enr == field_set(old(ahb).enr, 1, 18, 1),
            final(ahb).rstr == field_set(old(ahb).rstr, 1, 18, 0),
            parts.regs.state() == (RegView {
                port: 1,
                moder: 0x0000_0280,
                otyper: 0,
                ospeedr: 0x0000_00C0,
                pupdr: 0x0000_0100,
                afrl: 0,
                afrh: 0,
                idr: 0,
                odr: 0,
            }),
            parts.pb0.spec_port() == 1,
            parts.pb0.spec_index() == 0,
            parts.pb1.spec_port() == 1,
            parts.pb1.spec_index() == 1,
            parts.pb2.spec_port() == 1,
            parts.pb2.spec_index() == 2,
            parts.pb3.spec_port() == 1,
            parts.pb3.spec_index() == 3,
            parts.pb4.spec_port() == 1,
            parts.pb4.spec_index() == 4,
            parts.pb5.spec_port() == 1,
            parts.pb5.spec_index() == 5,
            parts.pb6.spec_port() == 1,
            parts.pb6.spec_index() == 6,
            parts.pb7.spec_port() == 1,
            parts.pb7.spec_index() == 7,
            parts.pb8.spec_port() == 1,
            parts.pb8.spec_index() == 8,
            parts.pb9.spec_port() == 1,
            parts.pb9.spec_index() == 9,
            parts.pb10.spec_port() == 1,
            parts.pb10.spec_index() == 10,
            parts.pb11.spec_port() == 1,
            parts.pb11.spec_index() == 11,
            parts.pb12.spec_port() == 1,
            parts.pb12.spec_index() == 12,
            parts.pb13.spec_port() == 1,
            parts.pb13.spec_index() == 13,
            parts.pb14.spec_port() == 1,
            parts.pb14.spec_index() == 14,
            parts.pb15.spec_port() == 1,
            parts.pb15.spec_index() == 15,
    {
        enable_and_reset(ahb, 18);
        Parts {
            regs: GpioRegisters {
                port: 1,
                moder: 0x0000_0280,
                otyper: 0,
                ospeedr: 0x0000_00C0,
                pupdr: 0x0000_0100,
                afrl: 0,
                afrh: 0,
                idr: 0,
                odr: 0,
            },
            pb0: Pin::new(Gpiob, U0),
            pb1: Pin::new(Gpiob, U1),
            pb2: Pin::new(Gpiob, U2),
            pb3: Pin::new(Gpiob, U3),
            pb4: Pin::new(Gpiob, U4),
            pb5: Pin::new(Gpiob, U5),
            pb6: Pin::new(Gpiob, U6),
            pb7: Pin::new(Gpiob, U7),
            pb8: Pin::new(Gpiob, U8),
            pb9: Pin::new(Gpiob, U9),
            pb10: Pin::new(Gpiob, U10),
            pb11: Pin::new(Gpiob, U11),
            pb12: Pin::new(Gpiob, U12),
            pb13: Pin::new(Gpiob, U13),
            pb14: Pin::new(Gpiob, U14),
            pb15: Pin::new(Gpiob, U15),
        }
    }
}

} // verus!
