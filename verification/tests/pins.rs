use gpio_hal::gpio::{downgrade_fully, GpioExt, Resistor, Speed};
use gpio_hal::gpioa::Gpioa;
use gpio_hal::gpiob::Gpiob;
use gpio_hal::gpioc::Gpioc;
use gpio_hal::gpiod::Gpiod;
use gpio_hal::gpioe::Gpioe;
use gpio_hal::gpiof::Gpiof;
use gpio_hal::reg::Ahb;

fn fresh_ahb() -> Ahb {
    Ahb { enr: 0, rstr: 0 }
}

#[test]
fn split_port_a_reset_state() {
    let mut ahb = fresh_ahb();
    let parts = Gpioa.split(&mut ahb);
    // Clock enabled, reset line released.
    assert_eq!(ahb.enr, 1 << 17);
    assert_eq!(ahb.rstr, 0);
    // Documented power-on-reset state: pins 13-15 in alternate mode.
    assert_eq!(parts.regs.port, 0);
    assert_eq!(parts.regs.moder, 0xA800_0000);
    assert_eq!(parts.regs.ospeedr, 0x0C00_0000);
    assert_eq!(parts.regs.pupdr, 0x6400_0000);
    assert_eq!(parts.regs.otyper, 0);
    assert_eq!(parts.regs.odr, 0);
}

#[test]
fn split_port_b_reset_state() {
    let mut ahb = fresh_ahb();
    let parts = Gpiob.split(&mut ahb);
    assert_eq!(ahb.enr, 1 << 18);
    assert_eq!(parts.regs.port, 1);
    // Pins 3 and 4 reset into alternate mode.
    assert_eq!(parts.regs.moder, 0x0000_0280);
    assert_eq!(parts.regs.ospeedr, 0x0000_00C0);
    assert_eq!(parts.regs.pupdr, 0x0000_0100);
}

#[test]
fn push_pull_output_drives_and_reads_back() {
    let mut ahb = fresh_ahb();
    let parts = Gpioa.split(&mut ahb);
    let mut regs = parts.regs;
    let mut out = parts.pa5.into_push_pull_output(&mut regs);
    // Mode field of pin 5 selects output, driver is push-pull.
    assert_eq!((regs.moder >> 10) & 0b11, 0b01);
    assert_eq!((regs.otyper >> 5) & 1, 0);
    out.set_high(&mut regs);
    assert_eq!((regs.odr >> 5) & 1, 1);
    assert!(out.is_set_high(&regs));
    assert!(!out.is_set_low(&regs));
    out.set_low(&mut regs);
    assert_eq!((regs.odr >> 5) & 1, 0);
    assert!(out.is_set_low(&regs));
    assert!(!out.is_set_high(&regs));
}

#[test]
fn end_to_end_pin_five() {
    let mut ahb = fresh_ahb();
    let parts = Gpioa.split(&mut ahb);
    let mut regs = parts.regs;
    // Pin 5 leaves reset in input mode.
    assert_eq!((regs.moder >> 10) & 0b11, 0b00);
    let mut out = parts.pa5.into_push_pull_output(&mut regs);
    out.set_high(&mut regs);
    assert!(out.is_set_high(&regs));
    let input = out.into_floating_input(&mut regs);
    assert_eq!((regs.moder >> 10) & 0b11, 0b00);
    assert_eq!((regs.pupdr >> 10) & 0b11, 0b00);
    // The reading now follows the external line, not the old output
    // latch: the latch still holds one, but the line is low.
    assert_eq!((regs.odr >> 5) & 1, 1);
    assert!(input.is_low(&regs));
    assert!(!input.is_high(&regs));
    // Drive the external line high and read it back.
    regs.idr |= 1 << 5;
    assert!(input.is_high(&regs));
    assert!(!input.is_low(&regs));
}

#[test]
fn analog_always_leaves_resistor_floating() {
    let mut ahb = fresh_ahb();
    let parts = Gpiob.split(&mut ahb);
    let mut regs = parts.regs;
    let pulled = parts.pb0.into_pull_up_input(&mut regs);
    assert_eq!((regs.pupdr >> 0) & 0b11, 0b01);
    let _analog = pulled.into_analog(&mut regs);
    assert_eq!((regs.moder >> 0) & 0b11, 0b11);
    assert_eq!((regs.pupdr >> 0) & 0b11, 0b00);
}

#[test]
fn analog_from_pull_down_leaves_resistor_floating() {
    let mut ahb = fresh_ahb();
    let parts = Gpiob.split(&mut ahb);
    let mut regs = parts.regs;
    let pulled = parts.pb7.into_pull_down_input(&mut regs);
    assert_eq!((regs.pupdr >> 14) & 0b11, 0b10);
    let _analog = pulled.into_analog(&mut regs);
    assert_eq!((regs.pupdr >> 14) & 0b11, 0b00);
}

#[test]
fn open_drain_output_senses_the_line() {
    let mut ahb = fresh_ahb();
    let parts = Gpiob.split(&mut ahb);
    let mut regs = parts.regs;
    let od = parts.pb6.into_open_drain_output(&mut regs);
    assert_eq!((regs.moder >> 12) & 0b11, 0b01);
    assert_eq!((regs.otyper >> 6) & 1, 1);
    // Open-drain outputs keep their input path: reads follow the line.
    assert!(od.is_low(&regs));
    regs.idr |= 1 << 6;
    assert!(od.is_high(&regs));
}

#[test]
fn set_speed_and_resistor_write_their_fields() {
    let mut ahb = fresh_ahb();
    let parts = Gpioc.split(&mut ahb);
    let mut regs = parts.regs;
    let mut out = parts.pc3.into_push_pull_output(&mut regs);
    out.set_speed(&mut regs, Speed::High);
    assert_eq!((regs.ospeedr >> 6) & 0b11, 0b11);
    out.set_speed(&mut regs, Speed::Medium);
    assert_eq!((regs.ospeedr >> 6) & 0b11, 0b01);
    out.set_speed(&mut regs, Speed::Low);
    assert_eq!((regs.ospeedr >> 6) & 0b11, 0b00);
    out.set_internal_resistor(&mut regs, Resistor::PullDown);
    assert_eq!((regs.pupdr >> 6) & 0b11, 0b10);
    out.set_internal_resistor(&mut regs, Resistor::Floating);
    assert_eq!((regs.pupdr >> 6) & 0b11, 0b00);
}

#[test]
fn internal_pull_up_toggles() {
    let mut ahb = fresh_ahb();
    let parts = Gpioc.split(&mut ahb);
    let mut regs = parts.regs;
    let mut input = parts.pc10.into_floating_input(&mut regs);
    input.internal_pull_up(&mut regs, true);
    assert_eq!((regs.pupdr >> 20) & 0b11, 0b01);
    input.internal_pull_up(&mut regs, false);
    assert_eq!((regs.pupdr >> 20) & 0b11, 0b00);
}

#[test]
fn alternate_function_routes_selector() {
    let mut ahb = fresh_ahb();
    let parts = Gpioc.split(&mut ahb);
    let mut regs = parts.regs;
    // Pin 8 lives in the high selector register, field 0.
    let _af = parts.pc8.into_af4_push_pull(&mut regs);
    assert_eq!((regs.moder >> 16) & 0b11, 0b10);
    assert_eq!((regs.otyper >> 8) & 1, 0);
    assert_eq!(regs.afrh & 0xF, 4);
    // Pin 5 lives in the low selector register, field 5.
    let _af = parts.pc5.into_af3_open_drain(&mut regs);
    assert_eq!((regs.moder >> 10) & 0b11, 0b10);
    assert_eq!((regs.otyper >> 5) & 1, 1);
    assert_eq!((regs.afrl >> 20) & 0xF, 3);
}

#[test]
fn remaining_banks_split_and_operate() {
    let mut ahb = fresh_ahb();
    let d = Gpiod.split(&mut ahb);
    let e = Gpioe.split(&mut ahb);
    let f = Gpiof.split(&mut ahb);
    // All three banks' clocks are enabled now.
    assert_eq!(ahb.enr, (1 << 20) | (1 << 21) | (1 << 22));
    assert_eq!(d.regs.port, 3);
    assert_eq!(e.regs.port, 4);
    assert_eq!(f.regs.port, 5);
    assert_eq!(d.regs.moder, 0);

    let mut d_regs = d.regs;
    let mut out = d.pd2.into_push_pull_output(&mut d_regs);
    out.set_high(&mut d_regs);
    assert_eq!(d_regs.odr, 1 << 2);

    let mut e_regs = e.regs;
    let _af = e.pe2.into_af0_push_pull(&mut e_regs);
    assert_eq!((e_regs.afrl >> 8) & 0xF, 0);
    assert_eq!((e_regs.moder >> 4) & 0b11, 0b10);

    let mut f_regs = f.regs;
    let input = f.pf4.into_pull_down_input(&mut f_regs);
    assert_eq!((f_regs.pupdr >> 8) & 0b11, 0b10);
    assert!(input.is_low(&f_regs));
}

#[test]
fn downgrade_twice_preserves_identity_and_mode() {
    let mut ahb = fresh_ahb();
    let parts = Gpioc.split(&mut ahb);
    let mut regs = parts.regs;
    let out = parts.pc8.into_push_pull_output(&mut regs);
    // Erase the pin number, then the port; the mode stays in the type,
    // so output operations are still available, and the erased handle
    // must keep driving pin 8 of bank C.
    let partially = out.downgrade();
    assert_eq!(partially.pin_index(), 8);
    let mut erased = partially.downgrade();
    assert_eq!(erased.pin_port(), 2);
    assert_eq!(erased.pin_index(), 8);
    erased.set_high(&mut regs);
    assert_eq!((regs.odr >> 8) & 1, 1);
    assert!(erased.is_set_high(&regs));
    erased.set_low(&mut regs);
    assert!(erased.is_set_low(&regs));
}

#[test]
fn downgrade_fully_keeps_port_identity() {
    let mut ahb = fresh_ahb();
    let parts = Gpiob.split(&mut ahb);
    let mut regs = parts.regs;
    let out = parts.pb14.into_push_pull_output(&mut regs);
    let mut erased = downgrade_fully(out);
    erased.set_high(&mut regs);
    assert_eq!((regs.odr >> 14) & 1, 1);
    // The erased handle also still routes interrupts from bank B: its
    // stored port index must be the original one.
    let mut syscfg = gpio_hal::exti::SysCfg { exticr1: 0, exticr2: 0, exticr3: 0, exticr4: 0 };
    erased.make_interrupt_source(&mut syscfg);
    assert_eq!((syscfg.exticr4 >> 8) & 0xF, 1);
}
