//! Register-block models.
//!
//! The hardware behind this library is a set of fixed-layout, memory-mapped
//! register blocks: one per GPIO bank, plus the shared clock/reset block.
//! The library models each block as a struct of plain register words, so
//! every register write has a machine-checked contract; on a target chip
//! the same words live at the bank's base address and each update is the
//! atomic transaction described in [`crate::field`].
//!
//! Register fields are bit-packed per pin: 2-bit mode, 1-bit output type,
//! 2-bit speed, 2-bit pull-resistor, 4-bit alternate-function selector.

use vstd::prelude::*;

use crate::field::{atomic_modify_at, field_get, field_set};

verus! {

/// Mode register field values (2 bits per pin).
pub const MODE_INPUT: u32 = 0b00;

/// Output mode.
pub const MODE_OUTPUT: u32 = 0b01;

/// Alternate-function mode.
pub const MODE_ALTERNATE: u32 = 0b10;

/// Analog mode.
pub const MODE_ANALOG: u32 = 0b11;

/// Output-type register field values (1 bit per pin).
pub const OTYPE_PUSH_PULL: u32 = 0b0;

/// Open-drain output driver.
pub const OTYPE_OPEN_DRAIN: u32 = 0b1;

/// Output-speed register field values (2 bits per pin).
pub const SPEED_LOW: u32 = 0b00;

/// Medium slew rate.
pub const SPEED_MEDIUM: u32 = 0b01;

/// High slew rate.
pub const SPEED_HIGH: u32 = 0b11;

/// Pull-resistor register field values (2 bits per pin).
pub const PULL_FLOATING: u32 = 0b00;

/// Weak pull-up resistor enabled.
pub const PULL_UP: u32 = 0b01;

/// Weak pull-down resistor enabled.
pub const PULL_DOWN: u32 = 0b10;

/// The observable state of one GPIO bank's register block, as plain
/// register words. Contracts all over the library are phrased over this
/// view.
pub ghost struct RegView {
    /// Which bank this block belongs to (0 = A, 1 = B, ...).
    pub port: u8,
    /// Mode register: one 2-bit field per pin.
    pub moder: u32,
    /// Output-type register: one 1-bit field per pin.
    pub otyper: u32,
    /// Output-speed register: one 2-bit field per pin.
    pub ospeedr: u32,
    /// Pull-up/pull-down register: one 2-bit field per pin.
    pub pupdr: u32,
    /// Alternate-function selector for pins 0-7: one 4-bit field per pin.
    pub afrl: u32,
    /// Alternate-function selector for pins 8-15: one 4-bit field per pin.
    pub afrh: u32,
    /// Input-data register: one bit per pin, driven by the external line.
    pub idr: u32,
    /// Output-data register: one bit per pin, the last commanded level.
    pub odr: u32,
}

/// The view after the 2-bit mode field of pin `i` is set to `v`.
pub open spec fn set_moder_field(r: RegView, i: u8, v: u32) -> RegView {
    RegView {
        port: r.port,
        moder: field_set(r.moder, 2, i, v),
        otyper: r.otyper,
        ospeedr: r.ospeedr,
        pupdr: r.pupdr,
        afrl: r.afrl,
        afrh: r.afrh,
        idr: r.idr,
        odr: r.odr,
    }
}

/// The view after the 1-bit output-type field of pin `i` is set to `v`.
pub open spec fn set_otyper_field(r: RegView, i: u8, v: u32) -> RegView {
    RegView {
        port: r.port,
        moder: r.moder,
        otyper: field_set(r.otyper, 1, i, v),
        ospeedr: r.ospeedr,
        pupdr: r.pupdr,
        afrl: r.afrl,
        afrh: r.afrh,
        idr: r.idr,
        odr: r.odr,
    }
}

/// The view after the 2-bit output-speed field of pin `i` is set to `v`.
pub open spec fn set_ospeedr_field(r: RegView, i: u8, v: u32) -> RegView {
    RegView {
        port: r.port,
        moder: r.moder,
        otyper: r.otyper,
        ospeedr: field_set(r.ospeedr, 2, i, v),
        pupdr: r.pupdr,
        afrl: r.afrl,
        afrh: r.afrh,
        idr: r.idr,
        odr: r.odr,
    }
}

/// The view after the 2-bit pull-resistor field of pin `i` is set to `v`.
pub open spec fn set_pupdr_field(r: RegView, i: u8, v: u32) -> RegView {
    RegView {
        port: r.port,
        moder: r.moder,
        otyper: r.otyper,
        ospeedr: r.ospeedr,
        pupdr: field_set(r.pupdr, 2, i, v),
        afrl: r.afrl,
        afrh: r.afrh,
        idr: r.idr,
        odr: r.odr,
    }
}

/// The view after the 4-bit alternate-function field of pin `i` is set to
/// `v`; pins 0-7 live in the low selector register, pins 8-15 in the high
/// one.
pub open spec fn set_af_field(r: RegView, i: u8, v: u32) -> RegView {
    if i < 8 {
        RegView {
            port: r.port,
            moder: r.moder,
            otyper: r.otyper,
            ospeedr: r.ospeedr,
            pupdr: r.pupdr,
            afrl: field_set(r.afrl, 4, i, v),
            afrh: r.afrh,
            idr: r.idr,
            odr: r.odr,
        }
    } else {
        RegView {
            port: r.port,
            moder: r.moder,
            otyper: r.otyper,
            ospeedr: r.ospeedr,
            pupdr: r.pupdr,
            afrl: r.afrl,
            afrh: field_set(r.afrh, 4, (i - 8) as u8, v),
            idr: r.idr,
            odr: r.odr,
        }
    }
}

/// The view after the output-data bit of pin `i` is set to `v`.
pub open spec fn set_odr_field(r: RegView, i: u8, v: u32) -> RegView {
    RegView {
        port: r.port,
        moder: r.moder,
        otyper: r.otyper,
        ospeedr: r.ospeedr,
        pupdr: r.pupdr,
        afrl: r.afrl,
        afrh: r.afrh,
        idr: r.idr,
        odr: field_set(r.odr, 1, i, v),
    }
}

/// The register interface of one GPIO bank: every per-pin configuration
/// write clears and sets exactly that pin's field, and the data registers
/// are read bit-wise.
pub trait GpioRegExt {
    /// The current register words of this bank.
    spec fn state(&self) -> RegView;

    /// Reads the input-data bit of pin `i`: true when the external line
    /// is low.
    fn is_low(&self, i: u8) -> (r: bool)
        requires
            i < 16,
        ensures
            r == (field_get(self.state().idr, 1, i) == 0),
    ;

    /// Reads the output-data bit of pin `i`: true when the last commanded
    /// level is low.
    fn is_set_low(&self, i: u8) -> (r: bool)
        requires
            i < 16,
        ensures
            r == (field_get(self.state().odr, 1, i) == 0),
    ;

    /// Drives pin `i` high: sets its output-data bit.
    fn set_high(&mut self, i: u8)
        requires
            i < 16,
        ensures
            final(self).state() == set_odr_field(old(self).state(), i, 1),
    ;

    /// Drives pin `i` low: clears its output-data bit.
    fn set_low(&mut self, i: u8)
        requires
            i < 16,
        ensures
            final(self).state() == set_odr_field(old(self).state(), i, 0),
    ;

    /// Selects input mode for pin `i`.
    fn input(&mut self, i: u8)
        requires
            i < 16,
        ensures
            final(self).state() == set_moder_field(old(self).state(), i, MODE_INPUT),
    ;

    /// Selects output mode for pin `i`.
    fn output(&mut self, i: u8)
        requires
            i < 16,
        ensures
            final(self).state() == set_moder_field(old(self).state(), i, MODE_OUTPUT),
    ;

    /// Selects alternate-function mode for pin `i`.
    fn alternate(&mut self, i: u8)
        requires
            i < 16,
        ensures
            final(self).state() == set_moder_field(old(self).state(), i, MODE_ALTERNATE),
    ;

    /// Selects analog mode for pin `i`.
    fn analog(&mut self, i: u8)
        requires
            i < 16,
        ensures
            final(self).state() == set_moder_field(old(self).state(), i, MODE_ANALOG),
    ;

    /// Selects the push-pull output driver for pin `i`.
    fn push_pull(&mut self, i: u8)
        requires
            i < 16,
        ensures
            final(self).state() == set_otyper_field(old(self).state(), i, OTYPE_PUSH_PULL),
    ;

    /// Selects the open-drain output driver for pin `i`.
    fn open_drain(&mut self, i: u8)
        requires
            i < 16,
        ensures
            final(self).state() == set_otyper_field(old(self).state(), i, OTYPE_OPEN_DRAIN),
    ;

    /// Selects the low slew rate for pin `i`.
    fn low_speed(&mut self, i: u8)
        requires
            i < 16,
        ensures
            final(self).state() == set_ospeedr_field(old(self).state(), i, SPEED_LOW),
    ;

    /// Selects the medium slew rate for pin `i`.
    fn medium_speed(&mut self, i: u8)
        requires
            i < 16,
        ensures
            final(self).state() == set_ospeedr_field(old(self).state(), i, SPEED_MEDIUM),
    ;

    /// Selects the high slew rate for pin `i`.
    fn high_speed(&mut self, i: u8)
        requires
            i < 16,
        ensures
            final(self).state() == set_ospeedr_field(old(self).state(), i, SPEED_HIGH),
    ;

    /// Disables the pull resistors of pin `i`.
    fn floating(&mut self, i: u8)
        requires
            i < 16,
        ensures
            final(self).state() == set_pupdr_field(old(self).state(), i, PULL_FLOATING),
    ;

    /// Enables the weak pull-up resistor of pin `i`.
    fn pull_up(&mut self, i: u8)
        requires
            i < 16,
        ensures
            final(self).state() == set_pupdr_field(old(self).state(), i, PULL_UP),
    ;

    /// Enables the weak pull-down resistor of pin `i`.
    fn pull_down(&mut self, i: u8)
        requires
            i < 16,
        ensures
            final(self).state() == set_pupdr_field(old(self).state(), i, PULL_DOWN),
    ;

    /// Routes alternate function `x` to pin `i`.
    fn afx(&mut self, i: u8, x: u8)
        requires
            i < 16,
            x < 16,
        ensures
            final(self).state() == set_af_field(old(self).state(), i, x as u32),
    ;
}

/// One GPIO bank's register block. On a target chip these words are the
/// memory-mapped registers at the bank's base address; the `port` field
/// stands for that address, identifying which bank the block is.
pub struct GpioRegisters {
    /// Which bank this block belongs to (0 = A, 1 = B, ...).
    pub port: u8,
    /// Mode register.
    pub moder: u32,
    /// Output-type register.
    pub otyper: u32,
    /// Output-speed register.
    pub ospeedr: u32,
    /// Pull-up/pull-down register.
    pub pupdr: u32,
    /// Alternate-function selector, pins 0-7.
    pub afrl: u32,
    /// Alternate-function selector, pins 8-15.
    pub afrh: u32,
    /// Input-data register, driven by the external lines.
    pub idr: u32,
    /// Output-data register.
    pub odr: u32,
}

impl GpioRegExt for GpioRegisters {
    open spec fn state(&self) -> RegView {
        RegView {
            port: self.port,
            moder: self.moder,
            otyper: self.otyper,
            ospeedr: self.ospeedr,
            pupdr: self.pupdr,
            afrl: self.afrl,
            afrh: self.afrh,
            idr: self.idr,
            odr: self.odr,
        }
    }

    fn is_low(&self, i: u8) -> (r: bool) {
        let r = (self.idr >> (i as u32)) & 1 == 0;
        proof {
            assert(((self.idr >> (i as u32)) & 1 == 0) == (field_get(self.idr, 1, i) == 0))
                by (bit_vector);
        }
        r
    }

    fn is_set_low(&self, i: u8) -> (r: bool) {
        let r = (self.odr >> (i as u32)) & 1 == 0;
        proof {
            assert(((self.odr >> (i as u32)) & 1 == 0) == (field_get(self.odr, 1, i) == 0))
                by (bit_vector);
        }
        r
    }

    fn set_high(&mut self, i: u8) {
        atomic_modify_at(&mut self.odr, 1, i, 1);
    }

    fn set_low(&mut self, i: u8) {
        atomic_modify_at(&mut self.odr, 1, i, 0);
    }

    fn input(&mut self, i: u8) {
        atomic_modify_at(&mut self.moder, 2, i, MODE_INPUT);
    }

    fn output(&mut self, i: u8) {
        atomic_modify_at(&mut self.moder, 2, i, MODE_OUTPUT);
    }

    fn alternate(&mut self, i: u8) {
        atomic_modify_at(&mut self.moder, 2, i, MODE_ALTERNATE);
    }

    fn analog(&mut self, i: u8) {
        atomic_modify_at(&mut self.moder, 2, i, MODE_ANALOG);
    }

    fn push_pull(&mut self, i: u8) {
        atomic_modify_at(&mut self.otyper, 1, i, OTYPE_PUSH_PULL);
    }

    fn open_drain(&mut self, i: u8) {
        atomic_modify_at(&mut self.otyper, 1, i, OTYPE_OPEN_DRAIN);
    }

    fn low_speed(&mut self, i: u8) {
        atomic_modify_at(&mut self.ospeedr, 2, i, SPEED_LOW);
    }

    fn medium_speed(&mut self, i: u8) {
        atomic_modify_at(&mut self.ospeedr, 2, i, SPEED_MEDIUM);
    }

    fn high_speed(&mut self, i: u8) {
        atomic_modify_at(&mut self.ospeedr, 2, i, SPEED_HIGH);
    }

    fn floating(&mut self, i: u8) {
        atomic_modify_at(&mut self.pupdr, 2, i, PULL_FLOATING);
    }

    fn pull_up(&mut self, i: u8) {
        atomic_modify_at(&mut self.pupdr, 2, i, PULL_UP);
    }

    fn pull_down(&mut self, i: u8) {
        atomic_modify_at(&mut self.pupdr, 2, i, PULL_DOWN);
    }

    fn afx(&mut self, i: u8, x: u8) {
        if i < 8 {
            atomic_modify_at(&mut self.afrl, 4, i, x as u32);
        } else {
            atomic_modify_at(&mut self.afrh, 4, i - 8, x as u32);
        }
    }
}

/// The bus block that gates each GPIO bank's clock and reset line. The
/// `split` operation of a bank needs exclusive access to it for the
/// duration of the call.
pub struct Ahb {
    /// Peripheral clock-enable register: one bit per bank.
    pub enr: u32,
    /// Peripheral reset register: one bit per bank.
    pub rstr: u32,
}

/// Enables the clock of the bank whose enable/reset bit is `bit`, and
/// pulses its reset line (assert, then deassert).
pub fn enable_and_reset(ahb: &mut Ahb, bit: u8)
    requires
        bit < 32,
    ensures
        final(ahb).enr == field_set(old(ahb).enr, 1, bit, 1),
        final(ahb).rstr == field_set(old(ahb).rstr, 1, bit, 0),
{
    atomic_modify_at(&mut ahb.enr, 1, bit, 1);
    let ghost rstr0 = ahb.rstr;
    atomic_modify_at(&mut ahb.rstr, 1, bit, 1);
    atomic_modify_at(&mut ahb.rstr, 1, bit, 0);
    proof {
        crate::field::lemma_field_set_overwrite(rstr0, 1, bit, 1, 0);
    }
}

} // verus!
