//! General purpose input / output.
//!
//! A GPIO bank is split once into one [`Pin`] handle per physical pin
//! (see [`GpioExt::split`]); each handle is a capability token carrying
//! the bank identity, the pin number and the pin's current electrical
//! mode in its type. Mode transitions consume the handle and return a
//! re-typed one, issuing the matching register writes through the atomic
//! field-update primitive before returning, so the mode in the type
//! always matches the register configuration, and a stale handle cannot
//! be used after reconfiguration.
//!
//! Every register write touches only the calling pin's field, so owners
//! of different pins of one bank may configure them concurrently without
//! locks: the proofs in [`crate::field`] show no update can clobber a
//! neighbouring field.
//!
//! Pin configuration is lock-free but not wait-free: on hardware each
//! field update retries under contention.

use core::marker::PhantomData;

use vstd::prelude::*;

use crate::field::{field_get, lemma_field_set_reads_back};
use crate::marker;
use crate::reg::{
    set_af_field, set_moder_field, set_odr_field, set_ospeedr_field, set_otyper_field,
    set_pupdr_field, Ahb, GpioRegExt, GpioRegisters, MODE_ALTERNATE, MODE_ANALOG, MODE_INPUT,
    MODE_OUTPUT, OTYPE_OPEN_DRAIN, OTYPE_PUSH_PULL, PULL_DOWN, PULL_FLOATING, PULL_UP, SPEED_HIGH,
    SPEED_LOW, SPEED_MEDIUM,
};

verus! {

/// Identity of one GPIO bank: the register-block address it stands for
/// and its small bank index, used for interrupt-routing arithmetic.
pub trait Gpio {
    /// The bank index (0 = A, 1 = B, ...).
    spec fn spec_port_index(&self) -> u8;

    /// The bank index as a run-time value; it is small enough to fit a
    /// 4-bit interrupt-routing field.
    fn port_index(&self) -> (r: u8)
        ensures
            r == self.spec_port_index(),
            r < 16,
    ;
}

/// Extension trait to split a GPIO peripheral into independent pins and
/// registers.
///
/// Splitting consumes the peripheral singleton, so it can happen at most
/// once per bank for the life of the program; the returned parts hold
/// exactly one handle per physical pin, each typed with the pin's
/// documented power-on-reset mode, together with the bank's register
/// block.
pub trait GpioExt {
    /// The parts to split the GPIO peripheral into.
    type Parts;

    /// Splits the GPIO block into independent pins and registers,
    /// enabling the bank's clock and pulsing its reset line.
    fn split(self, ahb: &mut Ahb) -> Self::Parts;
}

/// Runtime defined GPIO port (type state).
///
/// Every bank shares one register-block layout, and each operation is
/// handed its bank's block explicitly, so erasing the port only has to
/// keep the bank index.
pub struct Gpiox {
    index: u8,
}

impl Gpiox {
    #[verifier::type_invariant]
    spec fn inv(&self) -> bool {
        self.index < 16
    }
}

impl Gpio for Gpiox {
    closed spec fn spec_port_index(&self) -> u8 {
        self.index
    }

    fn port_index(&self) -> (r: u8) {
        proof {
            use_type_invariant(&*self);
        }
        self.index
    }
}

impl marker::Gpio for Gpiox {

}

/// Runtime defined pin number (type state).
pub struct Ux(u8);

impl Ux {
    #[verifier::type_invariant]
    spec fn inv(&self) -> bool {
        self.0 < 16
    }
}

impl marker::Index for Ux {
    closed spec fn spec_index(&self) -> u8 {
        self.0
    }

    fn index(&self) -> (r: u8) {
        proof {
            use_type_invariant(&*self);
        }
        self.0
    }
}

/// Input mode (type state).
pub struct Input;

/// Output mode (type state).
pub struct Output<Otype>(PhantomData<Otype>);

/// Alternate function (type state).
pub struct Alternate<Af, Otype>(PhantomData<Af>, PhantomData<Otype>);

/// Analog mode (type state).
pub struct Analog;

/// Push-pull output (type state).
pub struct PushPull;

/// Open-drain output (type state).
pub struct OpenDrain;

impl marker::Readable for Input {

}

impl marker::Readable for Output<OpenDrain> {

}

impl<Otype> marker::OutputSpeed for Output<Otype> {

}

impl<Af, Otype> marker::OutputSpeed for Alternate<Af, Otype> {

}

impl marker::Active for Input {

}

impl<Otype> marker::Active for Output<Otype> {

}

impl<Af, Otype> marker::Active for Alternate<Af, Otype> {

}

/// Slew rate configuration.
pub enum Speed {
    /// Low speed.
    Low,
    /// Medium speed.
    Medium,
    /// High speed.
    High,
}

/// The output-speed register field value selected by `s`.
pub open spec fn spec_speed_bits(s: Speed) -> u32 {
    match s {
        Speed::Low => SPEED_LOW,
        Speed::Medium => SPEED_MEDIUM,
        Speed::High => SPEED_HIGH,
    }
}

/// Internal pull-up and pull-down resistor configuration.
pub enum Resistor {
    /// Floating.
    Floating,
    /// Pulled up.
    PullUp,
    /// Pulled down.
    PullDown,
}

/// The pull-resistor register field value selected by `r`.
pub open spec fn spec_resistor_bits(r: Resistor) -> u32 {
    match r {
        Resistor::Floating => PULL_FLOATING,
        Resistor::PullUp => PULL_UP,
        Resistor::PullDown => PULL_DOWN,
    }
}

/// GPIO interrupt trigger edge selection.
pub enum Edge {
    /// Rising edge of voltage.
    Rising,
    /// Falling edge of voltage.
    Falling,
    /// Rising and falling edge of voltage.
    RisingFalling,
}

/// Generic pin.
///
/// A value of this type is a capability: it owns the right to configure
/// and use one physical pin, and nothing else. Exactly one live handle
/// exists per pin in the fully typed form, because every mode transition
/// consumes the handle.
pub struct Pin<Gpio, Index, Mode> {
    pub(crate) gpio: Gpio,
    pub(crate) index: Index,
    pub(crate) _mode: PhantomData<Mode>,
}

/// Fully erased pin.
///
/// Pin number and port are only known at run time; the mode is still
/// tracked in the type, so capability gating is unchanged.
pub type PXx<Mode> = Pin<Gpiox, Ux, Mode>;

impl<Gpio, Index, Mode> Pin<Gpio, Index, Mode> where Index: marker::Index {
    /// The pin number within its bank.
    pub closed spec fn spec_index(&self) -> u8 {
        self.index.spec_index()
    }
}

impl<Gpio, Index, Mode> Pin<Gpio, Index, Mode> where Gpio: marker::Gpio {
    /// The index of the bank this pin belongs to.
    pub closed spec fn spec_port(&self) -> u8 {
        self.gpio.spec_port_index()
    }
}

impl<Gpio, Index, Mode> Pin<Gpio, Index, Mode> {
    /// The port identity tag carried by this pin.
    pub closed spec fn spec_gpio(&self) -> Gpio {
        self.gpio
    }
}

impl<Gpio, Index, Mode> Pin<Gpio, Index, Mode> where
    Gpio: marker::Gpio,
    Index: marker::Index,
 {
    pub(crate) fn new(gpio: Gpio, index: Index) -> (pin: Self)
        ensures
            pin.spec_port() == gpio.spec_port_index(),
            pin.spec_index() == index.spec_index(),
    {
        Pin { gpio, index, _mode: PhantomData }
    }

    /// The pin number within its bank, as a run-time value.
    pub fn pin_index(&self) -> (r: u8)
        ensures
            r == self.spec_index(),
            r < 16,
    {
        self.index.index()
    }

    /// The index of the bank this pin belongs to, as a run-time value.
    pub fn pin_port(&self) -> (r: u8)
        ensures
            r == self.spec_port(),
            r < 16,
    {
        self.gpio.port_index()
    }
}

impl<Gpio, Index, Mode> Pin<Gpio, Index, Mode> where Index: marker::Unsigned {
    /// Erases the pin number from the type.
    ///
    /// This is useful when you want to collect the pins into an array
    /// where you need all the elements to have the same type.
    pub fn downgrade(self) -> (pin: Pin<Gpio, Ux, Mode>)
        ensures
            pin.spec_gpio() == self.spec_gpio(),
            pin.spec_index() == self.spec_index(),
    {
        let i = self.index.index();
        Pin { gpio: self.gpio, index: Ux(i), _mode: PhantomData }
    }
}

impl<Gpio, Mode> Pin<Gpio, Ux, Mode> where Gpio: marker::Gpio {
    /// Erases the port letter from the type.
    ///
    /// This is useful when you want to collect the pins into an array
    /// where you need all the elements to have the same type.
    pub fn downgrade(self) -> (pin: PXx<Mode>)
        ensures
            pin.spec_port() == self.spec_port(),
            pin.spec_index() == self.spec_index(),
    {
        let p = self.gpio.port_index();
        Pin { gpio: Gpiox { index: p }, index: self.index, _mode: PhantomData }
    }
}

/// Erasing the pin number and then the port keeps the pin's identity:
/// the run-time bank index and pin number of the fully erased handle
/// equal the original compile-time values, and the mode is untouched
/// because it stays in the returned type.
pub fn downgrade_fully<Gpio, Index, Mode>(pin: Pin<Gpio, Index, Mode>) -> (r: PXx<Mode>) where
    Gpio: marker::Gpio,
    Index: marker::Unsigned,

    ensures
        r.spec_port() == pin.spec_port(),
        r.spec_index() == pin.spec_index(),
{
    let part = pin.downgrade();
    part.downgrade()
}

impl<Gpio, Index, Mode> Pin<Gpio, Index, Mode> {
    fn into_mode<NewMode>(self) -> (pin: Pin<Gpio, Index, NewMode>)
        ensures
            pin.gpio == self.gpio,
            pin.index == self.index,
    {
        Pin { gpio: self.gpio, index: self.index, _mode: PhantomData }
    }
}

impl<Gpio, Index, Mode> Pin<Gpio, Index, Mode> where
    Gpio: marker::Gpio,
    Index: marker::Index,
 {
    /// Configures the pin to operate as an input pin.
    pub fn into_input(self, regs: &mut GpioRegisters) -> (pin: Pin<Gpio, Index, Input>)
        requires
            old(regs).state().port == self.spec_port(),
        ensures
            final(regs).state() == set_moder_field(
                old(regs).state(),
                self.spec_index(),
                MODE_INPUT,
            ),
            pin.spec_port() == self.spec_port(),
            pin.spec_index() == self.spec_index(),
    {
        let i = self.pin_index();
        regs.input(i);
        self.into_mode()
    }

    /// Convenience method to configure the pin to operate as an input pin
    /// and set the internal resistor floating.
    pub fn into_floating_input(self, regs: &mut GpioRegisters) -> (pin: Pin<Gpio, Index, Input>)
        requires
            old(regs).state().port == self.spec_port(),
        ensures
            final(regs).state() == set_pupdr_field(
                set_moder_field(old(regs).state(), self.spec_index(), MODE_INPUT),
                self.spec_index(),
                PULL_FLOATING,
            ),
            pin.spec_port() == self.spec_port(),
            pin.spec_index() == self.spec_index(),
    {
        let i = self.pin_index();
        regs.input(i);
        regs.floating(i);
        self.into_mode()
    }

    /// Convenience method to configure the pin to operate as an input pin
    /// and set the internal resistor pull-up.
    pub fn into_pull_up_input(self, regs: &mut GpioRegisters) -> (pin: Pin<Gpio, Index, Input>)
        requires
            old(regs).state().port == self.spec_port(),
        ensures
            final(regs).state() == set_pupdr_field(
                set_moder_field(old(regs).state(), self.spec_index(), MODE_INPUT),
                self.spec_index(),
                PULL_UP,
            ),
            pin.spec_port() == self.spec_port(),
            pin.spec_index() == self.spec_index(),
    {
        let i = self.pin_index();
        regs.input(i);
        regs.pull_up(i);
        self.into_mode()
    }

    /// Convenience method to configure the pin to operate as an input pin
    /// and set the internal resistor pull-down.
    pub fn into_pull_down_input(self, regs: &mut GpioRegisters) -> (pin: Pin<Gpio, Index, Input>)
        requires
            old(regs).state().port == self.spec_port(),
        ensures
            final(regs).state() == set_pupdr_field(
                set_moder_field(old(regs).state(), self.spec_index(), MODE_INPUT),
                self.spec_index(),
                PULL_DOWN,
            ),
            pin.spec_port() == self.spec_port(),
            pin.spec_index() == self.spec_index(),
    {
        let i = self.pin_index();
        regs.input(i);
        regs.pull_down(i);
        self.into_mode()
    }

    /// Configures the pin to operate as a push-pull output pin.
    pub fn into_push_pull_output(self, regs: &mut GpioRegisters) -> (pin: Pin<
        Gpio,
        Index,
        Output<PushPull>,
    >)
        requires
            old(regs).state().port == self.spec_port(),
        ensures
            final(regs).state() == set_otyper_field(
                set_moder_field(old(regs).state(), self.spec_index(), MODE_OUTPUT),
                self.spec_index(),
                OTYPE_PUSH_PULL,
            ),
            pin.spec_port() == self.spec_port(),
            pin.spec_index() == self.spec_index(),
    {
        let i = self.pin_index();
        regs.output(i);
        regs.push_pull(i);
        self.into_mode()
    }

    /// Configures the pin to operate as an open-drain output pin.
    pub fn into_open_drain_output(self, regs: &mut GpioRegisters) -> (pin: Pin<
        Gpio,
        Index,
        Output<OpenDrain>,
    >)
        requires
            old(regs).state().port == self.spec_port(),
        ensures
            final(regs).state() == set_otyper_field(
                set_moder_field(old(regs).state(), self.spec_index(), MODE_OUTPUT),
                self.spec_index(),
                OTYPE_OPEN_DRAIN,
            ),
            pin.spec_port() == self.spec_port(),
            pin.spec_index() == self.spec_index(),
    {
        let i = self.pin_index();
        regs.output(i);
        regs.open_drain(i);
        self.into_mode()
    }

    /// Configures the pin to operate as an analog pin, with disabled
    /// schmitt trigger.
    ///
    /// The internal resistor is always forced back to floating, whatever
    /// it was before: an analog pin must not be pulled.
    pub fn into_analog(self, regs: &mut GpioRegisters) -> (pin: Pin<Gpio, Index, Analog>)
        requires
            old(regs).state().port == self.spec_port(),
        ensures
            final(regs).state() == set_pupdr_field(
                set_moder_field(old(regs).state(), self.spec_index(), MODE_ANALOG),
                self.spec_index(),
                PULL_FLOATING,
            ),
            field_get(final(regs).state().pupdr, 2, self.spec_index()) == PULL_FLOATING,
            pin.spec_port() == self.spec_port(),
            pin.spec_index() == self.spec_index(),
    {
        let i = self.pin_index();
        let ghost pupdr0 = regs.state().pupdr;
        regs.analog(i);
        regs.floating(i);
        proof {
            lemma_field_set_reads_back(pupdr0, 2, i, PULL_FLOATING);
        }
        self.into_mode()
    }
}

impl<Gpio, Index, Mode> Pin<Gpio, Index, Mode> where
    Gpio: marker::Gpio,
    Index: marker::Index,
    Mode: marker::OutputSpeed,
 {
    /// Set pin output slew rate.
    pub fn set_speed(&mut self, regs: &mut GpioRegisters, speed: Speed)
        requires
            old(regs).state().port == old(self).spec_port(),
        ensures
            final(regs).state() == set_ospeedr_field(
                old(regs).state(),
                old(self).spec_index(),
                spec_speed_bits(speed),
            ),
            *final(self) == *old(self),
    {
        let i = self.pin_index();
        match speed {
            Speed::Low => regs.low_speed(i),
            Speed::Medium => regs.medium_speed(i),
            Speed::High => regs.high_speed(i),
        }
    }
}

impl<Gpio, Index, Mode> Pin<Gpio, Index, Mode> where
    Gpio: marker::Gpio,
    Index: marker::Index,
    Mode: marker::Active,
 {
    /// Set the internal pull-up and pull-down resistor.
    pub fn set_internal_resistor(&mut self, regs: &mut GpioRegisters, resistor: Resistor)
        requires
            old(regs).state().port == old(self).spec_port(),
        ensures
            final(regs).state() == set_pupdr_field(
                old(regs).state(),
                old(self).spec_index(),
                spec_resistor_bits(resistor),
            ),
            *final(self) == *old(self),
    {
        let i = self.pin_index();
        match resistor {
            Resistor::Floating => regs.floating(i),
            Resistor::PullUp => regs.pull_up(i),
            Resistor::PullDown => regs.pull_down(i),
        }
    }

    /// Enables / disables the internal pull up.
    pub fn internal_pull_up(&mut self, regs: &mut GpioRegisters, on: bool)
        requires
            old(regs).state().port == old(self).spec_port(),
        ensures
            final(regs).state() == set_pupdr_field(
                old(regs).state(),
                old(self).spec_index(),
                if on {
                    PULL_UP
                } else {
                    PULL_FLOATING
                },
            ),
            *final(self) == *old(self),
    {
        self.set_internal_resistor(
            regs,
            match on {
                true => Resistor::PullUp,
                false => Resistor::Floating,
            },
        );
    }
}

impl<Gpio, Index, Otype> Pin<Gpio, Index, Output<Otype>> where
    Gpio: marker::Gpio,
    Index: marker::Index,
 {
    /// Drives the pin high. Digital output is infallible on this
    /// hardware.
    pub fn set_high(&mut self, regs: &mut GpioRegisters)
        requires
            old(regs).state().port == old(self).spec_port(),
        ensures
            final(regs).state() == set_odr_field(old(regs).state(), old(self).spec_index(), 1),
            *final(self) == *old(self),
    {
        let i = self.pin_index();
        regs.set_high(i);
    }

    /// Drives the pin low. Digital output is infallible on this
    /// hardware.
    pub fn set_low(&mut self, regs: &mut GpioRegisters)
        requires
            old(regs).state().port == old(self).spec_port(),
        ensures
            final(regs).state() == set_odr_field(old(regs).state(), old(self).spec_index(), 0),
            *final(self) == *old(self),
    {
        let i = self.pin_index();
        regs.set_low(i);
    }

    /// True when the last commanded output level is high.
    pub fn is_set_high(&self, regs: &GpioRegisters) -> (r: bool)
        requires
            regs.state().port == self.spec_port(),
        ensures
            r == (field_get(regs.state().odr, 1, self.spec_index()) != 0),
    {
        !self.is_set_low(regs)
    }

    /// True when the last commanded output level is low.
    pub fn is_set_low(&self, regs: &GpioRegisters) -> (r: bool)
        requires
            regs.state().port == self.spec_port(),
        ensures
            r == (field_get(regs.state().odr, 1, self.spec_index()) == 0),
    {
        let i = self.pin_index();
        regs.is_set_low(i)
    }
}

impl<Gpio, Index, Mode> Pin<Gpio, Index, Mode> where
    Gpio: marker::Gpio,
    Index: marker::Index,
    Mode: marker::Readable,
 {
    /// True when the external line is high. Digital input is infallible
    /// on this hardware.
    pub fn is_high(&self, regs: &GpioRegisters) -> (r: bool)
        requires
            regs.state().port == self.spec_port(),
        ensures
            r == (field_get(regs.state().idr, 1, self.spec_index()) != 0),
    {
        !self.is_low(regs)
    }

    /// True when the external line is low. Digital input is infallible
    /// on this hardware.
    pub fn is_low(&self, regs: &GpioRegisters) -> (r: bool)
        requires
            regs.state().port == self.spec_port(),
        ensures
            r == (field_get(regs.state().idr, 1, self.spec_index()) == 0),
    {
        let i = self.pin_index();
        regs.is_low(i)
    }
}

/// Driving a freshly configured push-pull output is observable: the
/// sequence into-push-pull-output, set-high, is-set-high reads back true,
/// and after a following set-low, is-set-low reads back true as well,
/// for every pin.
pub fn output_drive_reads_back<Gpio, Index, Mode>(
    pin: Pin<Gpio, Index, Mode>,
    regs: &mut GpioRegisters,
) -> (r: (Pin<Gpio, Index, Output<PushPull>>, bool, bool)) where
    Gpio: marker::Gpio,
    Index: marker::Index,

    requires
        old(regs).state().port == pin.spec_port(),
    ensures
        r.1 == true,
        r.2 == true,
        r.0.spec_port() == pin.spec_port(),
        r.0.spec_index() == pin.spec_index(),
{
    let i = pin.pin_index();
    let mut out = pin.into_push_pull_output(regs);
    let ghost odr_before_high = regs.state().odr;
    out.set_high(regs);
    proof {
        lemma_field_set_reads_back(odr_before_high, 1, i, 1);
    }
    let was_high = out.is_set_high(regs);
    let ghost odr_before_low = regs.state().odr;
    out.set_low(regs);
    proof {
        lemma_field_set_reads_back(odr_before_low, 1, i, 0);
    }
    let was_low = out.is_set_low(regs);
    (out, was_high, was_low)
}

/// Pin number 0 (type state).
pub struct U0;

impl marker::Index for U0 {
    open spec fn spec_index(&self) -> u8 {
        0
    }

    fn index(&self) -> (r: u8) {
        0
    }
}

impl marker::Unsigned for U0 {

}

/// Pin number 1 (type state).
pub struct U1;

impl marker::Index for U1 {
    open spec fn spec_index(&self) -> u8 {
        1
    }

    fn index(&self) -> (r: u8) {
        1
    }
}

impl marker::Unsigned for U1 {

}

/// Pin number 2 (type state).
pub struct U2;

impl marker::Index for U2 {
    open spec fn spec_index(&self) -> u8 {
        2
    }

    fn index(&self) -> (r: u8) {
        2
    }
}

impl marker::Unsigned for U2 {

}

/// Pin number 3 (type state).
pub struct U3;

impl marker::Index for U3 {
    open spec fn spec_index(&self) -> u8 {
        3
    }

    fn index(&self) -> (r: u8) {
        3
    }
}

impl marker::Unsigned for U3 {

}

/// Pin number 4 (type state).
pub struct U4;

impl marker::Index for U4 {
    open spec fn spec_index(&self) -> u8 {
        4
    }

    fn index(&self) -> (r: u8) {
        4
    }
}

impl marker::Unsigned for U4 {

}

/// Pin number 5 (type state).
pub struct U5;

impl marker::Index for U5 {
    open spec fn spec_index(&self) -> u8 {
        5
    }

    fn index(&self) -> (r: u8) {
        5
    }
}

impl marker::Unsigned for U5 {

}

/// Pin number 6 (type state).
pub struct U6;

impl marker::Index for U6 {
    open spec fn spec_index(&self) -> u8 {
        6
    }

    fn index(&self) -> (r: u8) {
        6
    }
}

impl marker::Unsigned for U6 {

}

/// Pin number 7 (type state).
pub struct U7;

impl marker::Index for U7 {
    open spec fn spec_index(&self) -> u8 {
        7
    }

    fn index(&self) -> (r: u8) {
        7
    }
}

impl marker::Unsigned for U7 {

}

/// Pin number 8 (type state).
pub struct U8;

impl marker::Index for U8 {
    open spec fn spec_index(&self) -> u8 {
        8
    }

    fn index(&self) -> (r: u8) {
        8
    }
}

impl marker::Unsigned for U8 {

}

/// Pin number 9 (type state).
pub struct U9;

impl marker::Index for U9 {
    open spec fn spec_index(&self) -> u8 {
        9
    }

    fn index(&self) -> (r: u8) {
        9
    }
}

impl marker::Unsigned for U9 {

}

/// Pin number 10 (type state).
pub struct U10;

impl marker::Index for U10 {
    open spec fn spec_index(&self) -> u8 {
        10
    }

    fn index(&self) -> (r: u8) {
        10
    }
}

impl marker::Unsigned for U10 {

}

/// Pin number 11 (type state).
pub struct U11;

impl marker::Index for U11 {
    open spec fn spec_index(&self) -> u8 {
        11
    }

    fn index(&self) -> (r: u8) {
        11
    }
}

impl marker::Unsigned for U11 {

}

/// Pin number 12 (type state).
pub struct U12;

impl marker::Index for U12 {
    open spec fn spec_index(&self) -> u8 {
        12
    }

    fn index(&self) -> (r: u8) {
        12
    }
}

impl marker::Unsigned for U12 {

}

/// Pin number 13 (type state).
pub struct U13;

impl marker::Index for U13 {
    open spec fn spec_index(&self) -> u8 {
        13
    }

    fn index(&self) -> (r: u8) {
        13
    }
}

impl marker::Unsigned for U13 {

}

/// Pin number 14 (type state).
pub struct U14;

impl marker::Index for U14 {
    open spec fn spec_index(&self) -> u8 {
        14
    }

    fn index(&self) -> (r: u8) {
        14
    }
}

impl marker::Unsigned for U14 {

}

/// Pin number 15 (type state).
pub struct U15;

impl marker::Index for U15 {
    open spec fn spec_index(&self) -> u8 {
        15
    }

    fn index(&self) -> (r: u8) {
        15
    }
}

impl marker::Unsigned for U15 {

}

/// Alternate function 0 (type state).
pub type AF0<Otype> = Alternate<U0, Otype>;

impl<Gpio, Index, Mode> Pin<Gpio, Index, Mode> where
    Self: marker::IntoAf0,
    Gpio: marker::Gpio,
    Index: marker::Index,
 {
    /// Configures the pin to operate as an alternate function 0
    /// push-pull output pin.
    pub fn into_af0_push_pull(self, regs: &mut GpioRegisters) -> (pin: Pin<
        Gpio,
        Index,
        AF0<PushPull>,
    >)
        requires
            old(regs).state().port == self.spec_port(),
        ensures
            final(regs).state() == set_af_field(
                set_otyper_field(
                    set_moder_field(old(regs).state(), self.spec_index(), MODE_ALTERNATE),
                    self.spec_index(),
                    OTYPE_PUSH_PULL,
                ),
                self.spec_index(),
                0,
            ),
            pin.spec_port() == self.spec_port(),
            pin.spec_index() == self.spec_index(),
    {
        let i = self.pin_index();
        regs.alternate(i);
        regs.push_pull(i);
        regs.afx(i, 0);
        self.into_mode()
    }

    /// Configures the pin to operate as an alternate function 0
    /// open-drain output pin.
    pub fn into_af0_open_drain(self, regs: &mut GpioRegisters) -> (pin: Pin<
        Gpio,
        Index,
        AF0<OpenDrain>,
    >)
        requires
            old(regs).state().port == self.spec_port(),
        ensures
            final(regs).state() == set_af_field(
                set_otyper_field(
                    set_moder_field(old(regs).state(), self.spec_index(), MODE_ALTERNATE),
                    self.spec_index(),
                    OTYPE_OPEN_DRAIN,
                ),
                self.spec_index(),
                0,
            ),
            pin.spec_port() == self.spec_port(),
            pin.spec_index() == self.spec_index(),
    {
        let i = self.pin_index();
        regs.alternate(i);
        regs.open_drain(i);
        regs.afx(i, 0);
        self.into_mode()
    }
}

/// Alternate function 1 (type state).
pub type AF1<Otype> = Alternate<U1, Otype>;

impl<Gpio, Index, Mode> Pin<Gpio, Index, Mode> where
    Self: marker::IntoAf1,
    Gpio: marker::Gpio,
    Index: marker::Index,
 {
    /// Configures the pin to operate as an alternate function 1
    /// push-pull output pin.
    pub fn into_af1_push_pull(self, regs: &mut GpioRegisters) -> (pin: Pin<
        Gpio,
        Index,
        AF1<PushPull>,
    >)
        requires
            old(regs).state().port == self.spec_port(),
        ensures
            final(regs).state() == set_af_field(
                set_otyper_field(
                    set_moder_field(old(regs).state(), self.spec_index(), MODE_ALTERNATE),
                    self.spec_index(),
                    OTYPE_PUSH_PULL,
                ),
                self.spec_index(),
                1,
            ),
            pin.spec_port() == self.spec_port(),
            pin.spec_index() == self.spec_index(),
    {
        let i = self.pin_index();
        regs.alternate(i);
        regs.push_pull(i);
        regs.afx(i, 1);
        self.into_mode()
    }

    /// Configures the pin to operate as an alternate function 1
    /// open-drain output pin.
    pub fn into_af1_open_drain(self, regs: &mut GpioRegisters) -> (pin: Pin<
        Gpio,
        Index,
        AF1<OpenDrain>,
    >)
        requires
            old(regs).state().port == self.spec_port(),
        ensures
            final(regs).state() == set_af_field(
                set_otyper_field(
                    set_moder_field(old(regs).state(), self.spec_index(), MODE_ALTERNATE),
                    self.spec_index(),
                    OTYPE_OPEN_DRAIN,
                ),
                self.spec_index(),
                1,
            ),
            pin.spec_port() == self.spec_port(),
            pin.spec_index() == self.spec_index(),
    {
        let i = self.pin_index();
        regs.alternate(i);
        regs.open_drain(i);
        regs.afx(i, 1);
        self.into_mode()
    }
}

/// Alternate function 2 (type state).
pub type AF2<Otype> = Alternate<U2, Otype>;

impl<Gpio, Index, Mode> Pin<Gpio, Index, Mode> where
    Self: marker::IntoAf2,
    Gpio: marker::Gpio,
    Index: marker::Index,
 {
    /// Configures the pin to operate as an alternate function 2
    /// push-pull output pin.
    pub fn into_af2_push_pull(self, regs: &mut GpioRegisters) -> (pin: Pin<
        Gpio,
        Index,
        AF2<PushPull>,
    >)
        requires
            old(regs).state().port == self.spec_port(),
        ensures
            final(regs).state() == set_af_field(
                set_otyper_field(
                    set_moder_field(old(regs).state(), self.spec_index(), MODE_ALTERNATE),
                    self.spec_index(),
                    OTYPE_PUSH_PULL,
                ),
                self.spec_index(),
                2,
            ),
            pin.spec_port() == self.spec_port(),
            pin.spec_index() == self.spec_index(),
    {
        let i = self.pin_index();
        regs.alternate(i);
        regs.push_pull(i);
        regs.afx(i, 2);
        self.into_mode()
    }

    /// Configures the pin to operate as an alternate function 2
    /// open-drain output pin.
    pub fn into_af2_open_drain(self, regs: &mut GpioRegisters) -> (pin: Pin<
        Gpio,
        Index,
        AF2<OpenDrain>,
    >)
        requires
            old(regs).state().port == self.spec_port(),
        ensures
            final(regs).state() == set_af_field(
                set_otyper_field(
                    set_moder_field(old(regs).state(), self.spec_index(), MODE_ALTERNATE),
                    self.spec_index(),
                    OTYPE_OPEN_DRAIN,
                ),
                self.spec_index(),
                2,
            ),
            pin.spec_port() == self.spec_port(),
            pin.spec_index() == self.spec_index(),
    {
        let i = self.pin_index();
        regs.alternate(i);
        regs.open_drain(i);
        regs.afx(i, 2);
        self.into_mode()
    }
}

/// Alternate function 3 (type state).
pub type AF3<Otype> = Alternate<U3, Otype>;

impl<Gpio, Index, Mode> Pin<Gpio, Index, Mode> where
    Self: marker::IntoAf3,
    Gpio: marker::Gpio,
    Index: marker::Index,
 {
    /// Configures the pin to operate as an alternate function 3
    /// push-pull output pin.
    pub fn into_af3_push_pull(self, regs: &mut GpioRegisters) -> (pin: Pin<
        Gpio,
        Index,
        AF3<PushPull>,
    >)
        requires
            old(regs).state().port == self.spec_port(),
        ensures
            final(regs).state() == set_af_field(
                set_otyper_field(
                    set_moder_field(old(regs).state(), self.spec_index(), MODE_ALTERNATE),
                    self.spec_index(),
                    OTYPE_PUSH_PULL,
                ),
                self.spec_index(),
                3,
            ),
            pin.spec_port() == self.spec_port(),
            pin.spec_index() == self.spec_index(),
    {
        let i = self.pin_index();
        regs.alternate(i);
        regs.push_pull(i);
        regs.afx(i, 3);
        self.into_mode()
    }

    /// Configures the pin to operate as an alternate function 3
    /// open-drain output pin.
    pub fn into_af3_open_drain(self, regs: &mut GpioRegisters) -> (pin: Pin<
        Gpio,
        Index,
        AF3<OpenDrain>,
    >)
        requires
            old(regs).state().port == self.spec_port(),
        ensures
            final(regs).state() == set_af_field(
                set_otyper_field(
                    set_moder_field(old(regs).state(), self.spec_index(), MODE_ALTERNATE),
                    self.spec_index(),
                    OTYPE_OPEN_DRAIN,
                ),
                self.spec_index(),
                3,
            ),
            pin.spec_port() == self.spec_port(),
            pin.spec_index() == self.spec_index(),
    {
        let i = self.pin_index();
        regs.alternate(i);
        regs.open_drain(i);
        regs.afx(i, 3);
        self.into_mode()
    }
}

/// Alternate function 4 (type state).
pub type AF4<Otype> = Alternate<U4, Otype>;

impl<Gpio, Index, Mode> Pin<Gpio, Index, Mode> where
    Self: marker::IntoAf4,
    Gpio: marker::Gpio,
    Index: marker::Index,
 {
    /// Configures the pin to operate as an alternate function 4
    /// push-pull output pin.
    pub fn into_af4_push_pull(self, regs: &mut GpioRegisters) -> (pin: Pin<
        Gpio,
        Index,
        AF4<PushPull>,
    >)
        requires
            old(regs).state().port == self.spec_port(),
        ensures
            final(regs).state() == set_af_field(
                set_otyper_field(
                    set_moder_field(old(regs).state(), self.spec_index(), MODE_ALTERNATE),
                    self.spec_index(),
                    OTYPE_PUSH_PULL,
                ),
                self.spec_index(),
                4,
            ),
            pin.spec_port() == self.spec_port(),
            pin.spec_index() == self.spec_index(),
    {
        let i = self.pin_index();
        regs.alternate(i);
        regs.push_pull(i);
        regs.afx(i, 4);
        self.into_mode()
    }

    /// Configures the pin to operate as an alternate function 4
    /// open-drain output pin.
    pub fn into_af4_open_drain(self, regs: &mut GpioRegisters) -> (pin: Pin<
        Gpio,
        Index,
        AF4<OpenDrain>,
    >)
        requires
            old(regs).state().port == self.spec_port(),
        ensures
            final(regs).state() == set_af_field(
                set_otyper_field(
                    set_moder_field(old(regs).state(), self.spec_index(), MODE_ALTERNATE),
                    self.spec_index(),
                    OTYPE_OPEN_DRAIN,
                ),
                self.spec_index(),
                4,
            ),
            pin.spec_port() == self.spec_port(),
            pin.spec_index() == self.spec_index(),
    {
        let i = self.pin_index();
        regs.alternate(i);
        regs.open_drain(i);
        regs.afx(i, 4);
        self.into_mode()
    }
}

/// Alternate function 5 (type state).
pub type AF5<Otype> = Alternate<U5, Otype>;

impl<Gpio, Index, Mode> Pin<Gpio, Index, Mode> where
    Self: marker::IntoAf5,
    Gpio: marker::Gpio,
    Index: marker::Index,
 {
    /// Configures the pin to operate as an alternate function 5
    /// push-pull output pin.
    pub fn into_af5_push_pull(self, regs: &mut GpioRegisters) -> (pin: Pin<
        Gpio,
        Index,
        AF5<PushPull>,
    >)
        requires
            old(regs).state().port == self.spec_port(),
        ensures
            final(regs).state() == set_af_field(
                set_otyper_field(
                    set_moder_field(old(regs).state(), self.spec_index(), MODE_ALTERNATE),
                    self.spec_index(),
                    OTYPE_PUSH_PULL,
                ),
                self.spec_index(),
                5,
            ),
            pin.spec_port() == self.spec_port(),
            pin.spec_index() == self.spec_index(),
    {
        let i = self.pin_index();
        regs.alternate(i);
        regs.push_pull(i);
        regs.afx(i, 5);
        self.into_mode()
    }

    /// Configures the pin to operate as an alternate function 5
    /// open-drain output pin.
    pub fn into_af5_open_drain(self, regs: &mut GpioRegisters) -> (pin: Pin<
        Gpio,
        Index,
        AF5<OpenDrain>,
    >)
        requires
            old(regs).state().port == self.spec_port(),
        ensures
            final(regs).state() == set_af_field(
                set_otyper_field(
                    set_moder_field(old(regs).state(), self.spec_index(), MODE_ALTERNATE),
                    self.spec_index(),
                    OTYPE_OPEN_DRAIN,
                ),
                self.spec_index(),
                5,
            ),
            pin.spec_port() == self.spec_port(),
            pin.spec_index() == self.spec_index(),
    {
        let i = self.pin_index();
        regs.alternate(i);
        regs.open_drain(i);
        regs.afx(i, 5);
        self.into_mode()
    }
}

/// Alternate function 6 (type state).
pub type AF6<Otype> = Alternate<U6, Otype>;

impl<Gpio, Index, Mode> Pin<Gpio, Index, Mode> where
    Self: marker::IntoAf6,
    Gpio: marker::Gpio,
    Index: marker::Index,
 {
    /// Configures the pin to operate as an alternate function 6
    /// push-pull output pin.
    pub fn into_af6_push_pull(self, regs: &mut GpioRegisters) -> (pin: Pin<
        Gpio,
        Index,
        AF6<PushPull>,
    >)
        requires
            old(regs).state().port == self.spec_port(),
        ensures
            final(regs).state() == set_af_field(
                set_otyper_field(
                    set_moder_field(old(regs).state(), self.spec_index(), MODE_ALTERNATE),
                    self.spec_index(),
                    OTYPE_PUSH_PULL,
                ),
                self.spec_index(),
                6,
            ),
            pin.spec_port() == self.spec_port(),
            pin.spec_index() == self.spec_index(),
    {
        let i = self.pin_index();
        regs.alternate(i);
        regs.push_pull(i);
        regs.afx(i, 6);
        self.into_mode()
    }

    /// Configures the pin to operate as an alternate function 6
    /// open-drain output pin.
    pub fn into_af6_open_drain(self, regs: &mut GpioRegisters) -> (pin: Pin<
        Gpio,
        Index,
        AF6<OpenDrain>,
    >)
        requires
            old(regs).state().port == self.spec_port(),
        ensures
            final(regs).state() == set_af_field(
                set_otyper_field(
                    set_moder_field(old(regs).state(), self.spec_index(), MODE_ALTERNATE),
                    self.spec_index(),
                    OTYPE_OPEN_DRAIN,
                ),
                self.spec_index(),
                6,
            ),
            pin.spec_port() == self.spec_port(),
            pin.spec_index() == self.spec_index(),
    {
        let i = self.pin_index();
        regs.alternate(i);
        regs.open_drain(i);
        regs.afx(i, 6);
        self.into_mode()
    }
}

/// Alternate function 7 (type state).
pub type AF7<Otype> = Alternate<U7, Otype>;

impl<Gpio, Index, Mode> Pin<Gpio, Index, Mode> where
    Self: marker::IntoAf7,
    Gpio: marker::Gpio,
    Index: marker::Index,
 {
    /// Configures the pin to operate as an alternate function 7
    /// push-pull output pin.
    pub fn into_af7_push_pull(self, regs: &mut GpioRegisters) -> (pin: Pin<
        Gpio,
        Index,
        AF7<PushPull>,
    >)
        requires
            old(regs).state().port == self.spec_port(),
        ensures
            final(regs).state() == set_af_field(
                set_otyper_field(
                    set_moder_field(old(regs).state(), self.spec_index(), MODE_ALTERNATE),
                    self.spec_index(),
                    OTYPE_PUSH_PULL,
                ),
                self.spec_index(),
                7,
            ),
            pin.spec_port() == self.spec_port(),
            pin.spec_index() == self.spec_index(),
    {
        let i = self.pin_index();
        regs.alternate(i);
        regs.push_pull(i);
        regs.afx(i, 7);
        self.into_mode()
    }

    /// Configures the pin to operate as an alternate function 7
    /// open-drain output pin.
    pub fn into_af7_open_drain(self, regs: &mut GpioRegisters) -> (pin: Pin<
        Gpio,
        Index,
        AF7<OpenDrain>,
    >)
        requires
            old(regs).state().port == self.spec_port(),
        ensures
            final(regs).state() == set_af_field(
                set_otyper_field(
                    set_moder_field(old(regs).state(), self.spec_index(), MODE_ALTERNATE),
                    self.spec_index(),
                    OTYPE_OPEN_DRAIN,
                ),
                self.spec_index(),
                7,
            ),
            pin.spec_port() == self.spec_port(),
            pin.spec_index() == self.spec_index(),
    {
        let i = self.pin_index();
        regs.alternate(i);
        regs.open_drain(i);
        regs.afx(i, 7);
        self.into_mode()
    }
}

/// Alternate function 8 (type state).
pub type AF8<Otype> = Alternate<U8, Otype>;

impl<Gpio, Index, Mode> Pin<Gpio, Index, Mode> where
    Self: marker::IntoAf8,
    Gpio: marker::Gpio,
    Index: marker::Index,
 {
    /// Configures the pin to operate as an alternate function 8
    /// push-pull output pin.
    pub fn into_af8_push_pull(self, regs: &mut GpioRegisters) -> (pin: Pin<
        Gpio,
        Index,
        AF8<PushPull>,
    >)
        requires
            old(regs).state().port == self.spec_port(),
        ensures
            final(regs).state() == set_af_field(
                set_otyper_field(
                    set_moder_field(old(regs).state(), self.spec_index(), MODE_ALTERNATE),
                    self.spec_index(),
                    OTYPE_PUSH_PULL,
                ),
                self.spec_index(),
                8,
            ),
            pin.spec_port() == self.spec_port(),
            pin.spec_index() == self.spec_index(),
    {
        let i = self.pin_index();
        regs.alternate(i);
        regs.push_pull(i);
        regs.afx(i, 8);
        self.into_mode()
    }

    /// Configures the pin to operate as an alternate function 8
    /// open-drain output pin.
    pub fn into_af8_open_drain(self, regs: &mut GpioRegisters) -> (pin: Pin<
        Gpio,
        Index,
        AF8<OpenDrain>,
    >)
        requires
            old(regs).state().port == self.spec_port(),
        ensures
            final(regs).state() == set_af_field(
                set_otyper_field(
                    set_moder_field(old(regs).state(), self.spec_index(), MODE_ALTERNATE),
                    self.spec_index(),
                    OTYPE_OPEN_DRAIN,
                ),
                self.spec_index(),
                8,
            ),
            pin.spec_port() == self.spec_port(),
            pin.spec_index() == self.spec_index(),
    {
        let i = self.pin_index();
        regs.alternate(i);
        regs.open_drain(i);
        regs.afx(i, 8);
        self.into_mode()
    }
}

/// Alternate function 9 (type state).
pub type AF9<Otype> = Alternate<U9, Otype>;

impl<Gpio, Index, Mode> Pin<Gpio, Index, Mode> where
    Self: marker::IntoAf9,
    Gpio: marker::Gpio,
    Index: marker::Index,
 {
    /// Configures the pin to operate as an alternate function 9
    /// push-pull output pin.
    pub fn into_af9_push_pull(self, regs: &mut GpioRegisters) -> (pin: Pin<
        Gpio,
        Index,
        AF9<PushPull>,
    >)
        requires
            old(regs).state().port == self.spec_port(),
        ensures
            final(regs).state() == set_af_field(
                set_otyper_field(
                    set_moder_field(old(regs).state(), self.spec_index(), MODE_ALTERNATE),
                    self.spec_index(),
                    OTYPE_PUSH_PULL,
                ),
                self.spec_index(),
                9,
            ),
            pin.spec_port() == self.spec_port(),
            pin.spec_index() == self.spec_index(),
    {
        let i = self.pin_index();
        regs.alternate(i);
        regs.push_pull(i);
        regs.afx(i, 9);
        self.into_mode()
    }

    /// Configures the pin to operate as an alternate function 9
    /// open-drain output pin.
    pub fn into_af9_open_drain(self, regs: &mut GpioRegisters) -> (pin: Pin<
        Gpio,
        Index,
        AF9<OpenDrain>,
    >)
        requires
            old(regs).state().port == self.spec_port(),
        ensures
            final(regs).state() == set_af_field(
                set_otyper_field(
                    set_moder_field(old(regs).state(), self.spec_index(), MODE_ALTERNATE),
                    self.spec_index(),
                    OTYPE_OPEN_DRAIN,
                ),
                self.spec_index(),
                9,
            ),
            pin.spec_port() == self.spec_port(),
            pin.spec_index() == self.spec_index(),
    {
        let i = self.pin_index();
        regs.alternate(i);
        regs.open_drain(i);
        regs.afx(i, 9);
        self.into_mode()
    }
}

/// Alternate function 10 (type state).
pub type AF10<Otype> = Alternate<U10, Otype>;

impl<Gpio, Index, Mode> Pin<Gpio, Index, Mode> where
    Self: marker::IntoAf10,
    Gpio: marker::Gpio,
    Index: marker::Index,
 {
    /// Configures the pin to operate as an alternate function 10
    /// push-pull output pin.
    pub fn into_af10_push_pull(self, regs: &mut GpioRegisters) -> (pin: Pin<
        Gpio,
        Index,
        AF10<PushPull>,
    >)
        requires
            old(regs).state().port == self.spec_port(),
        ensures
            final(regs).state() == set_af_field(
                set_otyper_field(
                    set_moder_field(old(regs).state(), self.spec_index(), MODE_ALTERNATE),
                    self.spec_index(),
                    OTYPE_PUSH_PULL,
                ),
                self.spec_index(),
                10,
            ),
            pin.spec_port() == self.spec_port(),
            pin.spec_index() == self.spec_index(),
    {
        let i = self.pin_index();
        regs.alternate(i);
        regs.push_pull(i);
        regs.afx(i, 10);
        self.into_mode()
    }

    /// Configures the pin to operate as an alternate function 10
    /// open-drain output pin.
    pub fn into_af10_open_drain(self, regs: &mut GpioRegisters) -> (pin: Pin<
        Gpio,
        Index,
        AF10<OpenDrain>,
    >)
        requires
            old(regs).state().port == self.spec_port(),
        ensures
            final(regs).state() == set_af_field(
                set_otyper_field(
                    set_moder_field(old(regs).state(), self.spec_index(), MODE_ALTERNATE),
                    self.spec_index(),
                    OTYPE_OPEN_DRAIN,
                ),
                self.spec_index(),
                10,
            ),
            pin.spec_port() == self.spec_port(),
            pin.spec_index() == self.spec_index(),
    {
        let i = self.pin_index();
        regs.alternate(i);
        regs.open_drain(i);
        regs.afx(i, 10);
        self.into_mode()
    }
}

/// Alternate function 11 (type state).
pub type AF11<Otype> = Alternate<U11, Otype>;

impl<Gpio, Index, Mode> Pin<Gpio, Index, Mode> where
    Self: marker::IntoAf11,
    Gpio: marker::Gpio,
    Index: marker::Index,
 {
    /// Configures the pin to operate as an alternate function 11
    /// push-pull output pin.
    pub fn into_af11_push_pull(self, regs: &mut GpioRegisters) -> (pin: Pin<
        Gpio,
        Index,
        AF11<PushPull>,
    >)
        requires
            old(regs).state().port == self.spec_port(),
        ensures
            final(regs).state() == set_af_field(
                set_otyper_field(
                    set_moder_field(old(regs).state(), self.spec_index(), MODE_ALTERNATE),
                    self.spec_index(),
                    OTYPE_PUSH_PULL,
                ),
                self.spec_index(),
                11,
            ),
            pin.spec_port() == self.spec_port(),
            pin.spec_index() == self.spec_index(),
    {
        let i = self.pin_index();
        regs.alternate(i);
        regs.push_pull(i);
        regs.afx(i, 11);
        self.into_mode()
    }

    /// Configures the pin to operate as an alternate function 11
    /// open-drain output pin.
    pub fn into_af11_open_drain(self, regs: &mut GpioRegisters) -> (pin: Pin<
        Gpio,
        Index,
        AF11<OpenDrain>,
    >)
        requires
            old(regs).state().port == self.spec_port(),
        ensures
            final(regs).state() == set_af_field(
                set_otyper_field(
                    set_moder_field(old(regs).state(), self.spec_index(), MODE_ALTERNATE),
                    self.spec_index(),
                    OTYPE_OPEN_DRAIN,
                ),
                self.spec_index(),
                11,
            ),
            pin.spec_port() == self.spec_port(),
            pin.spec_index() == self.spec_index(),
    {
        let i = self.pin_index();
        regs.alternate(i);
        regs.open_drain(i);
        regs.afx(i, 11);
        self.into_mode()
    }
}

/// Alternate function 12 (type state).
pub type AF12<Otype> = Alternate<U12, Otype>;

impl<Gpio, Index, Mode> Pin<Gpio, Index, Mode> where
    Self: marker::IntoAf12,
    Gpio: marker::Gpio,
    Index: marker::Index,
 {
    /// Configures the pin to operate as an alternate function 12
    /// push-pull output pin.
    pub fn into_af12_push_pull(self, regs: &mut GpioRegisters) -> (pin: Pin<
        Gpio,
        Index,
        AF12<PushPull>,
    >)
        requires
            old(regs).state().port == self.spec_port(),
        ensures
            final(regs).state() == set_af_field(
                set_otyper_field(
                    set_moder_field(old(regs).state(), self.spec_index(), MODE_ALTERNATE),
                    self.spec_index(),
                    OTYPE_PUSH_PULL,
                ),
                self.spec_index(),
                12,
            ),
            pin.spec_port() == self.spec_port(),
            pin.spec_index() == self.spec_index(),
    {
        let i = self.pin_index();
        regs.alternate(i);
        regs.push_pull(i);
        regs.afx(i, 12);
        self.into_mode()
    }

    /// Configures the pin to operate as an alternate function 12
    /// open-drain output pin.
    pub fn into_af12_open_drain(self, regs: &mut GpioRegisters) -> (pin: Pin<
        Gpio,
        Index,
        AF12<OpenDrain>,
    >)
        requires
            old(regs).state().port == self.spec_port(),
        ensures
            final(regs).state() == set_af_field(
                set_otyper_field(
                    set_moder_field(old(regs).state(), self.spec_index(), MODE_ALTERNATE),
                    self.spec_index(),
                    OTYPE_OPEN_DRAIN,
                ),
                self.spec_index(),
                12,
            ),
            pin.spec_port() == self.spec_port(),
            pin.spec_index() == self.spec_index(),
    {
        let i = self.pin_index();
        regs.alternate(i);
        regs.open_drain(i);
        regs.afx(i, 12);
        self.into_mode()
    }
}

/// Alternate function 13 (type state).
pub type AF13<Otype> = Alternate<U13, Otype>;

impl<Gpio, Index, Mode> Pin<Gpio, Index, Mode> where
    Self: marker::IntoAf13,
    Gpio: marker::Gpio,
    Index: marker::Index,
 {
    /// Configures the pin to operate as an alternate function 13
    /// push-pull output pin.
    pub fn into_af13_push_pull(self, regs: &mut GpioRegisters) -> (pin: Pin<
        Gpio,
        Index,
        AF13<PushPull>,
    >)
        requires
            old(regs).state().port == self.spec_port(),
        ensures
            final(regs).state() == set_af_field(
                set_otyper_field(
                    set_moder_field(old(regs).state(), self.spec_index(), MODE_ALTERNATE),
                    self.spec_index(),
                    OTYPE_PUSH_PULL,
                ),
                self.spec_index(),
                13,
            ),
            pin.spec_port() == self.spec_port(),
            pin.spec_index() == self.spec_index(),
    {
        let i = self.pin_index();
        regs.alternate(i);
        regs.push_pull(i);
        regs.afx(i, 13);
        self.into_mode()
    }

    /// Configures the pin to operate as an alternate function 13
    /// open-drain output pin.
    pub fn into_af13_open_drain(self, regs: &mut GpioRegisters) -> (pin: Pin<
        Gpio,
        Index,
        AF13<OpenDrain>,
    >)
        requires
            old(regs).state().port == self.spec_port(),
        ensures
            final(regs).state() == set_af_field(
                set_otyper_field(
                    set_moder_field(old(regs).state(), self.spec_index(), MODE_ALTERNATE),
                    self.spec_index(),
                    OTYPE_OPEN_DRAIN,
                ),
                self.spec_index(),
                13,
            ),
            pin.spec_port() == self.spec_port(),
            pin.spec_index() == self.spec_index(),
    {
        let i = self.pin_index();
        regs.alternate(i);
        regs.open_drain(i);
        regs.afx(i, 13);
        self.into_mode()
    }
}

/// Alternate function 14 (type state).
pub type AF14<Otype> = Alternate<U14, Otype>;

impl<Gpio, Index, Mode> Pin<Gpio, Index, Mode> where
    Self: marker::IntoAf14,
    Gpio: marker::Gpio,
    Index: marker::Index,
 {
    /// Configures the pin to operate as an alternate function 14
    /// push-pull output pin.
    pub fn into_af14_push_pull(self, regs: &mut GpioRegisters) -> (pin: Pin<
        Gpio,
        Index,
        AF14<PushPull>,
    >)
        requires
            old(regs).state().port == self.spec_port(),
        ensures
            final(regs).state() == set_af_field(
                set_otyper_field(
                    set_moder_field(old(regs).state(), self.spec_index(), MODE_ALTERNATE),
                    self.spec_index(),
                    OTYPE_PUSH_PULL,
                ),
                self.spec_index(),
                14,
            ),
            pin.spec_port() == self.spec_port(),
            pin.spec_index() == self.spec_index(),
    {
        let i = self.pin_index();
        regs.alternate(i);
        regs.push_pull(i);
        regs.afx(i, 14);
        self.into_mode()
    }

    /// Configures the pin to operate as an alternate function 14
    /// open-drain output pin.
    pub fn into_af14_open_drain(self, regs: &mut GpioRegisters) -> (pin: Pin<
        Gpio,
        Index,
        AF14<OpenDrain>,
    >)
        requires
            old(regs).state().port == self.spec_port(),
        ensures
            final(regs).state() == set_af_field(
                set_otyper_field(
                    set_moder_field(old(regs).state(), self.spec_index(), MODE_ALTERNATE),
                    self.spec_index(),
                    OTYPE_OPEN_DRAIN,
                ),
                self.spec_index(),
                14,
            ),
            pin.spec_port() == self.spec_port(),
            pin.spec_index() == self.spec_index(),
    {
        let i = self.pin_index();
        regs.alternate(i);
        regs.open_drain(i);
        regs.afx(i, 14);
        self.into_mode()
    }
}

/// Alternate function 15 (type state).
pub type AF15<Otype> = Alternate<U15, Otype>;

impl<Gpio, Index, Mode> Pin<Gpio, Index, Mode> where
    Self: marker::IntoAf15,
    Gpio: marker::Gpio,
    Index: marker::Index,
 {
    /// Configures the pin to operate as an alternate function 15
    /// push-pull output pin.
    pub fn into_af15_push_pull(self, regs: &mut GpioRegisters) -> (pin: Pin<
        Gpio,
        Index,
        AF15<PushPull>,
    >)
        requires
            old(regs).state().port == self.spec_port(),
        ensures
            final(regs).state() == set_af_field(
                set_otyper_field(
                    set_moder_field(old(regs).state(), self.spec_index(), MODE_ALTERNATE),
                    self.spec_index(),
                    OTYPE_PUSH_PULL,
                ),
                self.spec_index(),
                15,
            ),
            pin.spec_port() == self.spec_port(),
            pin.spec_index() == self.spec_index(),
    {
        let i = self.pin_index();
        regs.alternate(i);
        regs.push_pull(i);
        regs.afx(i, 15);
        self.into_mode()
    }

    /// Configures the pin to operate as an alternate function 15
    /// open-drain output pin.
    pub fn into_af15_open_drain(self, regs: &mut GpioRegisters) -> (pin: Pin<
        Gpio,
        Index,
        AF15<OpenDrain>,
    >)
        requires
            old(regs).state().port == self.spec_port(),
        ensures
            final(regs).state() == set_af_field(
                set_otyper_field(
                    set_moder_field(old(regs).state(), self.spec_index(), MODE_ALTERNATE),
                    self.spec_index(),
                    OTYPE_OPEN_DRAIN,
                ),
                self.spec_index(),
                15,
            ),
            pin.spec_port() == self.spec_port(),
            pin.spec_index() == self.spec_index(),
    {
        let i = self.pin_index();
        regs.alternate(i);
        regs.open_drain(i);
        regs.afx(i, 15);
        self.into_mode()
    }
}


} // verus!
