//! All pins and associated registers for GPIO port C.

use vstd::prelude::*;

use crate::field::field_set;
use crate::gpio::{Gpio, GpioExt, Input, Pin, U0, U1, U10, U11, U12, U13, U14, U15, U2, U3, U4, U5, U6, U7, U8, U9, Ux};
use crate::marker;
use crate::reg::{enable_and_reset, Ahb, GpioRegExt, GpioRegisters, RegView};

verus! {

/// GPIO port C (type state).
pub struct Gpioc;

impl Gpio for Gpioc {
    open spec fn spec_port_index(&self) -> u8 {
        2
    }

    fn port_index(&self) -> (r: u8) {
        2
    }
}

impl marker::Gpio for Gpioc {

}

/// Partially erased pin of port C.
pub type PCx<Mode> = Pin<Gpioc, Ux, Mode>;

/// Pin C0.
pub type PC0<Mode> = Pin<Gpioc, U0, Mode>;

/// Pin C1.
pub type PC1<Mode> = Pin<Gpioc, U1, Mode>;

/// Pin C2.
pub type PC2<Mode> = Pin<Gpioc, U2, Mode>;

/// Pin C3.
pub type PC3<Mode> = Pin<Gpioc, U3, Mode>;

/// Pin C4.
pub type PC4<Mode> = Pin<Gpioc, U4, Mode>;

/// Pin C5.
pub type PC5<Mode> = Pin<Gpioc, U5, Mode>;

/// Pin C6.
pub type PC6<Mode> = Pin<Gpioc, U6, Mode>;

/// Pin C7.
pub type PC7<Mode> = Pin<Gpioc, U7, Mode>;

/// Pin C8.
pub type PC8<Mode> = Pin<Gpioc, U8, Mode>;

/// Pin C9.
pub type PC9<Mode> = Pin<Gpioc, U9, Mode>;

/// Pin C10.
pub type PC10<Mode> = Pin<Gpioc, U10, Mode>;

/// Pin C11.
pub type PC11<Mode> = Pin<Gpioc, U11, Mode>;

/// Pin C12.
pub type PC12<Mode> = Pin<Gpioc, U12, Mode>;

/// Pin C13.
pub type PC13<Mode> = Pin<Gpioc, U13, Mode>;

/// Pin C14.
pub type PC14<Mode> = Pin<Gpioc, U14, Mode>;

/// Pin C15.
pub type PC15<Mode> = Pin<Gpioc, U15, Mode>;

impl<Mode> marker::IntoAf1 for PC0<Mode> {

}

impl<Mode> marker::IntoAf1 for PC1<Mode> {

}

impl<Mode> marker::IntoAf1 for PC2<Mode> {

}

impl<Mode> marker::IntoAf3 for PC2<Mode> {

}

impl<Mode> marker::IntoAf1 for PC3<Mode> {

}

impl<Mode> marker::IntoAf6 for PC3<Mode> {

}

impl<Mode> marker::IntoAf1 for PC4<Mode> {

}

impl<Mode> marker::IntoAf7 for PC4<Mode> {

}

impl<Mode> marker::IntoAf1 for PC5<Mode> {

}

impl<Mode> marker::IntoAf3 for PC5<Mode> {

}

impl<Mode> marker::IntoAf7 for PC5<Mode> {

}

impl<Mode> marker::IntoAf1 for PC6<Mode> {

}

impl<Mode> marker::IntoAf2 for PC6<Mode> {

}

impl<Mode> marker::IntoAf4 for PC6<Mode> {

}

impl<Mode> marker::IntoAf6 for PC6<Mode> {

}

impl<Mode> marker::IntoAf7 for PC6<Mode> {

}

impl<Mode> marker::IntoAf1 for PC7<Mode> {

}

impl<Mode> marker::IntoAf2 for PC7<Mode> {

}

impl<Mode> marker::IntoAf4 for PC7<Mode> {

}

impl<Mode> marker::IntoAf6 for PC7<Mode> {

}

impl<Mode> marker::IntoAf7 for PC7<Mode> {

}

impl<Mode> marker::IntoAf1 for PC8<Mode> {

}

impl<Mode> marker::IntoAf2 for PC8<Mode> {

}

impl<Mode> marker::IntoAf4 for PC8<Mode> {

}

impl<Mode> marker::IntoAf7 for PC8<Mode> {

}

impl<Mode> marker::IntoAf1 for PC9<Mode> {

}

impl<Mode> marker::IntoAf2 for PC9<Mode> {

}

impl<Mode> marker::IntoAf4 for PC9<Mode> {

}

impl<Mode> marker::IntoAf5 for PC9<Mode> {

}

impl<Mode> marker::IntoAf6 for PC9<Mode> {

}

impl<Mode> marker::IntoAf1 for PC10<Mode> {

}

impl<Mode> marker::IntoAf4 for PC10<Mode> {

}

impl<Mode> marker::IntoAf5 for PC10<Mode> {

}

impl<Mode> marker::IntoAf6 for PC10<Mode> {

}

impl<Mode> marker::IntoAf7 for PC10<Mode> {

}

impl<Mode> marker::IntoAf1 for PC11<Mode> {

}

impl<Mode> marker::IntoAf4 for PC11<Mode> {

}

impl<Mode> marker::IntoAf5 for PC11<Mode> {

}

impl<Mode> marker::IntoAf6 for PC11<Mode> {

}

impl<Mode> marker::IntoAf7 for PC11<Mode> {

}

impl<Mode> marker::IntoAf1 for PC12<Mode> {

}

impl<Mode> marker::IntoAf4 for PC12<Mode> {

}

impl<Mode> marker::IntoAf5 for PC12<Mode> {

}

impl<Mode> marker::IntoAf6 for PC12<Mode> {

}

impl<Mode> marker::IntoAf7 for PC12<Mode> {

}

impl<Mode> marker::IntoAf4 for PC13<Mode> {

}

/// GPIO parts: the bank's register block together with one pin handle
/// per physical pin, each typed with the pin's documented power-on-reset
/// mode.
pub struct Parts {
    /// The bank's register block.
    pub regs: GpioRegisters,
    /// Pin C0.
    pub pc0: PC0<Input>,
    /// Pin C1.
    pub pc1: PC1<Input>,
    /// Pin C2.
    pub pc2: PC2<Input>,
    /// Pin C3.
    pub pc3: PC3<Input>,
    /// Pin C4.
    pub pc4: PC4<Input>,
    /// Pin C5.
    pub pc5: PC5<Input>,
    /// Pin C6.
    pub pc6: PC6<Input>,
    /// Pin C7.
    pub pc7: PC7<Input>,
    /// Pin C8.
    pub pc8: PC8<Input>,
    /// Pin C9.
    pub pc9: PC9<Input>,
    /// Pin C10.
    pub pc10: PC10<Input>,
    /// Pin C11.
    pub pc11: PC11<Input>,
    /// Pin C12.
    pub pc12: PC12<Input>,
    /// Pin C13.
    pub pc13: PC13<Input>,
    /// Pin C14.
    pub pc14: PC14<Input>,
    /// Pin C15.
    pub pc15: PC15<Input>,
}

impl GpioExt for Gpioc {
    type Parts = Parts;

    /// Enables the bank's clock, pulses its reset line, and hands out
    /// the register block in its documented power-on-reset state along
    /// with one handle per pin.
    fn split(self, ahb: &mut Ahb) -> (parts: Parts)
        ensures
            final(ahb).enr == field_set(old(ahb).enr, 1, 19, 1),
            final(ahb).rstr == field_set(old(ahb).rstr, 1, 19, 0),
            parts.regs.state() == (RegView {
                port: 2,
                moder: 0,
                otyper: 0,
                ospeedr: 0,
                pupdr: 0,
                afrl: 0,
                afrh: 0,
                idr: 0,
                odr: 0,
            }),
            parts.pc0.spec_port() == 2,
            parts.pc0.spec_index() == 0,
            parts.pc1.spec_port() == 2,
            parts.pc1.spec_index() == 1,
            parts.pc2.spec_port() == 2,
            parts.pc2.spec_index() == 2,
            parts.pc3.spec_port() == 2,
            parts.pc3.spec_index() == 3,
            parts.pc4.spec_port() == 2,
            parts.pc4.spec_index() == 4,
            parts.pc5.spec_port() == 2,
            parts.pc5.spec_index() == 5,
            parts.pc6.spec_port() == 2,
            parts.pc6.spec_index() == 6,
            parts.pc7.spec_port() == 2,
            parts.pc7.spec_index() == 7,
            parts.pc8.spec_port() == 2,
            parts.pc8.spec_index() == 8,
            parts.pc9.spec_port() == 2,
            parts.pc9.spec_index() == 9,
            parts.pc10.spec_port() == 2,
            parts.pc10.spec_index() == 10,
            parts.pc11.spec_port() == 2,
            parts.pc11.spec_index() == 11,
            parts.pc12.spec_port() == 2,
            parts.pc12.spec_index() == 12,
            parts.pc13.spec_port() == 2,
            parts.pc13.spec_index() == 13,
            parts.pc14.spec_port() == 2,
            parts.pc14.spec_index() == 14,
            parts.pc15.spec_port() == 2,
            parts.pc15.spec_index() == 15,
    {
        enable_and_reset(ahb, 19);
        Parts {
            regs: GpioRegisters {
                port: 2,
                moder: 0,
                otyper: 0,
                ospeedr: 0,
                pupdr: 0,
                afrl: 0,
                afrh: 0,
                idr: 0,
                odr: 0,
            },
            pc0: Pin::new(Gpioc, U0),
            pc1: Pin::new(Gpioc, U1),
            pc2: Pin::new(Gpioc, U2),
            pc3: Pin::new(Gpioc, U3),
            pc4: Pin::new(Gpioc, U4),
            pc5: Pin::new(Gpioc, U5),
            pc6: Pin::new(Gpioc, U6),
            pc7: Pin::new(Gpioc, U7),
            pc8: Pin::new(Gpioc, U8),
            pc9: Pin::new(Gpioc, U9),
            pc10: Pin::new(Gpioc, U10),
            pc11: Pin::new(Gpioc, U11),
            pc12: Pin::new(Gpioc, U12),
            pc13: Pin::new(Gpioc, U13),
            pc14: Pin::new(Gpioc, U14),
            pc15: Pin::new(Gpioc, U15),
        }
    }
}

} // verus!
