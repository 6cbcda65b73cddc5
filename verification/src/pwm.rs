//! Pulse-width modulation on two timer channels.
//!
//! A channel handle is a two-state capability: timer setup returns it
//! with no output pin attached, and the duty-cycle operations only exist
//! on the pins-attached state, so calling them too early is a type
//! error, not a run-time check. Attaching consumes a pin handle that is
//! already typed with the exact alternate function the timer requires
//! for that pin, so a wrongly configured pin is a type error as well.
//!
//! Timer setup is a sequential register-programming routine: it is not
//! concurrency-sensitive the way pin configuration is, and its registers
//! are modeled at named-field granularity.

use core::marker::PhantomData;

use vstd::prelude::*;

use crate::gpio::{AF10, AF4, PushPull};
use crate::gpiob::PB9;
use crate::gpioc::PC8;

verus! {

/// PWM mode 1: the output is active while the counter is below the
/// compare value.
pub const PWM_MODE1: u8 = 0b0110;

/// The clock tree, reduced to the values timer setup needs.
pub struct Clocks {
    /// The peripheral clock frequency feeding the timers, in hertz.
    pub pclk2: u32,
}

/// The timer clock-enable bits of the reset-and-clock block.
pub struct Rcc {
    /// Clock enable of the general-purpose timer, on the first
    /// peripheral bus.
    pub tim3en: bool,
    /// Clock enable of the advanced timer, on the second peripheral bus.
    pub tim8en: bool,
}

/// One timer's register block, at named-field granularity.
pub struct TimerRegisters {
    /// Auto-reload preload enable.
    pub arpe: bool,
    /// Counter enable.
    pub cen: bool,
    /// Auto-reload value: the duty-cycle resolution ceiling.
    pub arr: u16,
    /// Counter prescaler.
    pub psc: u16,
    /// Slave/master configuration word.
    pub smcr: u32,
    /// Secondary control word.
    pub cr2: u32,
    /// Output-compare mode of channel 1.
    pub ocm1: u8,
    /// Output-compare mode of channel 2.
    pub ocm2: u8,
    /// Output-compare mode of channel 3.
    pub ocm3: u8,
    /// Output-compare mode of channel 4.
    pub ocm4: u8,
    /// Output-compare preload enable of channel 1.
    pub ocpe1: bool,
    /// Output-compare preload enable of channel 2.
    pub ocpe2: bool,
    /// Output-compare preload enable of channel 3.
    pub ocpe3: bool,
    /// Output-compare preload enable of channel 4.
    pub ocpe4: bool,
    /// Compare value of channel 3: the current duty.
    pub ccr3: u16,
    /// Compare-output enable of channel 3.
    pub cc3e: bool,
    /// Main output-driver enable; only break-capable timers have it.
    pub moe: bool,
    /// An update-event request was pulsed: the programmed settings
    /// reload immediately instead of at the next counter overflow.
    pub ug: bool,
}

/// Channel 3 of the general-purpose timer (type state).
pub struct Tim3Ch3 {}

/// Channel 3 of the advanced, break-capable timer (type state).
pub struct Tim8Ch3 {}

/// A channel with no output pin attached yet (type state).
pub struct NoPins {}

/// A channel whose output pin has been attached (type state).
pub struct WithPins {}

/// A PWM channel handle: identity of one timer output channel plus its
/// pin-binding state. Duty-cycle operations exist only once a pin is
/// attached.
pub struct PwmChannel<X, T> {
    pub(crate) timx_chx: PhantomData<X>,
    pub(crate) pin_status: PhantomData<T>,
}

/// Configures the general-purpose timer for single-channel PWM: enables
/// its clock, programs auto-reload from the requested resolution and the
/// prescaler from the target frequency, selects PWM mode 1 with preload
/// on every channel (so duty writes latch at counter overflow, never
/// mid-cycle), and starts the counter. Returns the channel handle with
/// no pins attached.
pub fn tim3(tim: &mut TimerRegisters, rcc: &mut Rcc, res: u16, freq: u16, clocks: &Clocks) -> (
    channel: PwmChannel<Tim3Ch3, NoPins>
)
    requires
        res > 0,
        freq > 0,
        res as int * freq as int <= u16::MAX as int,
    ensures
        final(rcc).tim3en == true,
        final(rcc).tim8en == old(rcc).tim8en,
        final(tim).arpe == true,
        final(tim).cen == true,
        final(tim).arr == res,
        final(tim).psc == (clocks.pclk2 as u16) / ((res * freq) as u16),
        final(tim).smcr == 0,
        final(tim).cr2 == 0,
        final(tim).ocm1 == PWM_MODE1,
        final(tim).ocm2 == PWM_MODE1,
        final(tim).ocm3 == PWM_MODE1,
        final(tim).ocm4 == PWM_MODE1,
        final(tim).ocpe1 == true,
        final(tim).ocpe2 == true,
        final(tim).ocpe3 == true,
        final(tim).ocpe4 == true,
        final(tim).ccr3 == old(tim).ccr3,
        final(tim).cc3e == old(tim).cc3e,
        final(tim).moe == old(tim).moe,
        final(tim).ug == old(tim).ug,
{
    rcc.tim3en = true;
    configure_pwm_timer(tim, res, freq, clocks);
    tim.cen = true;
    PwmChannel { timx_chx: PhantomData, pin_status: PhantomData }
}

/// Configures the advanced timer for single-channel PWM, as [`tim3`]
/// does for the general-purpose one; in addition it pulses an immediate
/// register-reload event and sets the main output-driver enable, which
/// break-capable timers require before any channel can drive a pin.
pub fn tim8(tim: &mut TimerRegisters, rcc: &mut Rcc, res: u16, freq: u16, clocks: &Clocks) -> (
    channel: PwmChannel<Tim8Ch3, NoPins>
)
    requires
        res > 0,
        freq > 0,
        res as int * freq as int <= u16::MAX as int,
    ensures
        final(rcc).tim8en == true,
        final(rcc).tim3en == old(rcc).tim3en,
        final(tim).arpe == true,
        final(tim).cen == true,
        final(tim).arr == res,
        final(tim).psc == (clocks.pclk2 as u16) / ((res * freq) as u16),
        final(tim).smcr == 0,
        final(tim).cr2 == 0,
        final(tim).ocm1 == PWM_MODE1,
        final(tim).ocm2 == PWM_MODE1,
        final(tim).ocm3 == PWM_MODE1,
        final(tim).ocm4 == PWM_MODE1,
        final(tim).ocpe1 == true,
        final(tim).ocpe2 == true,
        final(tim).ocpe3 == true,
        final(tim).ocpe4 == true,
        final(tim).ccr3 == old(tim).ccr3,
        final(tim).cc3e == old(tim).cc3e,
        final(tim).moe == true,
        final(tim).ug == true,
{
    rcc.tim8en = true;
    configure_pwm_timer(tim, res, freq, clocks);
    tim.ug = true;
    tim.moe = true;
    tim.cen = true;
    PwmChannel { timx_chx: PhantomData, pin_status: PhantomData }
}

/// The register programming shared by both timers: auto-reload,
/// prescaler, a clean slave/master configuration, and PWM mode 1 with
/// preload on all four channels.
fn configure_pwm_timer(tim: &mut TimerRegisters, res: u16, freq: u16, clocks: &Clocks)
    requires
        res > 0,
        freq > 0,
        res as int * freq as int <= u16::MAX as int,
    ensures
        final(tim).arpe == true,
        final(tim).arr == res,
        final(tim).psc == (clocks.pclk2 as u16) / ((res * freq) as u16),
        final(tim).smcr == 0,
        final(tim).cr2 == 0,
        final(tim).ocm1 == PWM_MODE1,
        final(tim).ocm2 == PWM_MODE1,
        final(tim).ocm3 == PWM_MODE1,
        final(tim).ocm4 == PWM_MODE1,
        final(tim).ocpe1 == true,
        final(tim).ocpe2 == true,
        final(tim).ocpe3 == true,
        final(tim).ocpe4 == true,
        final(tim).cen == old(tim).cen,
        final(tim).ccr3 == old(tim).ccr3,
        final(tim).cc3e == old(tim).cc3e,
        final(tim).moe == old(tim).moe,
        final(tim).ug == old(tim).ug,
{
    proof {
        assert(res as int * freq as int >= 1) by (nonlinear_arith)
            requires
                res >= 1,
                freq >= 1,
        ;
    }
    tim.arpe = true;
    tim.arr = res;
    tim.psc = (clocks.pclk2 as u16) / (res * freq);
    tim.smcr = 0;
    tim.cr2 = 0;
    tim.ocm1 = PWM_MODE1;
    tim.ocm2 = PWM_MODE1;
    tim.ocpe1 = true;
    tim.ocpe2 = true;
    tim.ocm3 = PWM_MODE1;
    tim.ocm4 = PWM_MODE1;
    tim.ocpe3 = true;
    tim.ocpe4 = true;
}

impl<T> PwmChannel<Tim8Ch3, T> {
    /// Binds pin C8, which must already hold the exact alternate
    /// function this channel requires, and unlocks the duty-cycle
    /// operations. There is no way back to the unbound state.
    pub fn output_to_pc8(self, _p: PC8<AF4<PushPull>>) -> PwmChannel<Tim8Ch3, WithPins> {
        PwmChannel { timx_chx: PhantomData, pin_status: PhantomData }
    }

    /// Binds pin B9, which must already hold the exact alternate
    /// function this channel requires, and unlocks the duty-cycle
    /// operations. There is no way back to the unbound state.
    pub fn output_to_pb9(self, _p: PB9<AF10<PushPull>>) -> PwmChannel<Tim8Ch3, WithPins> {
        PwmChannel { timx_chx: PhantomData, pin_status: PhantomData }
    }
}

impl PwmChannel<Tim8Ch3, WithPins> {
    /// Stops the channel from driving its pin: clears the
    /// compare-output enable bit and nothing else.
    pub fn disable(&mut self, tim: &mut TimerRegisters)
        ensures
            *final(tim) == (TimerRegisters { cc3e: false, ..*old(tim) }),
            *final(self) == *old(self),
    {
        tim.cc3e = false;
    }

    /// Lets the channel drive its pin: sets the compare-output enable
    /// bit and nothing else.
    pub fn enable(&mut self, tim: &mut TimerRegisters)
        ensures
            *final(tim) == (TimerRegisters { cc3e: true, ..*old(tim) }),
            *final(self) == *old(self),
    {
        tim.cc3e = true;
    }

    /// Reads the auto-reload value: the duty-cycle resolution ceiling
    /// configured at setup.
    pub fn get_max_duty(&self, tim: &TimerRegisters) -> (duty: u16)
        ensures
            duty == tim.arr,
    {
        tim.arr
    }

    /// Reads the channel's current compare value.
    pub fn get_duty(&self, tim: &TimerRegisters) -> (duty: u16)
        ensures
            duty == tim.ccr3,
    {
        tim.ccr3
    }

    /// Writes the channel's compare value. No range check is performed:
    /// a value above the auto-reload ceiling is stored as given and its
    /// effect on the waveform is hardware-defined.
    pub fn set_duty(&mut self, tim: &mut TimerRegisters, duty: u16)
        ensures
            *final(tim) == (TimerRegisters { ccr3: duty, ..*old(tim) }),
            *final(self) == *old(self),
    {
        tim.ccr3 = duty;
    }
}

/// After the advanced timer is configured with resolution `res` and a
/// pin is attached, the channel's maximum duty reads back exactly `res`.
pub fn configured_resolution_is_max_duty(
    tim: &mut TimerRegisters,
    rcc: &mut Rcc,
    res: u16,
    freq: u16,
    clocks: &Clocks,
    pin: PC8<AF4<PushPull>>,
) -> (duty: u16)
    requires
        res > 0,
        freq > 0,
        res as int * freq as int <= u16::MAX as int,
    ensures
        duty == res,
{
    let channel = tim8(tim, rcc, res, freq, clocks);
    let channel = channel.output_to_pc8(pin);
    channel.get_max_duty(tim)
}

/// Writing any duty value and reading it back returns that value, over
/// the whole 16-bit range, including values above the configured
/// resolution.
pub fn duty_round_trip(
    channel: &mut PwmChannel<Tim8Ch3, WithPins>,
    tim: &mut TimerRegisters,
    duty: u16,
) -> (read_back: u16)
    ensures
        read_back == duty,
{
    channel.set_duty(tim, duty);
    channel.get_duty(tim)
}

} // verus!
