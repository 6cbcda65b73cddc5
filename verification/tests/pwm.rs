use gpio_hal::gpio::GpioExt;
use gpio_hal::gpiob::Gpiob;
use gpio_hal::gpioc::Gpioc;
use gpio_hal::pwm::{duty_round_trip, tim3, tim8, Clocks, Rcc, TimerRegisters};
use gpio_hal::reg::Ahb;

fn fresh_timer() -> TimerRegisters {
    TimerRegisters {
        arpe: false,
        cen: false,
        arr: 0,
        psc: 0,
        smcr: 0xFFFF_FFFF,
        cr2: 0xFFFF_FFFF,
        ocm1: 0,
        ocm2: 0,
        ocm3: 0,
        ocm4: 0,
        ocpe1: false,
        ocpe2: false,
        ocpe3: false,
        ocpe4: false,
        ccr3: 0,
        cc3e: false,
        moe: false,
        ug: false,
    }
}

#[test]
fn tim8_setup_programs_the_timer() {
    let mut tim = fresh_timer();
    let mut rcc = Rcc { tim3en: false, tim8en: false };
    let clocks = Clocks { pclk2: 64_000_000 };
    let _channel = tim8(&mut tim, &mut rcc, 100, 50, &clocks);
    assert!(rcc.tim8en);
    assert!(!rcc.tim3en);
    assert!(tim.arpe);
    assert!(tim.cen);
    assert_eq!(tim.arr, 100);
    // The prescaler divides the truncated bus clock by res * freq:
    // 64_000_000 as u16 is 36864, and 36864 / 5000 is 7.
    assert_eq!(tim.psc, 7);
    assert_eq!(tim.smcr, 0);
    assert_eq!(tim.cr2, 0);
    assert_eq!(tim.ocm3, 0b0110);
    assert!(tim.ocpe3);
    // Advanced-timer extras: immediate reload and main output enable.
    assert!(tim.ug);
    assert!(tim.moe);
}

#[test]
fn tim3_setup_skips_advanced_timer_extras() {
    let mut tim = fresh_timer();
    let mut rcc = Rcc { tim3en: false, tim8en: false };
    let clocks = Clocks { pclk2: 8_000_000 };
    let _channel = tim3(&mut tim, &mut rcc, 255, 100, &clocks);
    assert!(rcc.tim3en);
    assert!(!rcc.tim8en);
    assert!(tim.cen);
    assert_eq!(tim.arr, 255);
    // 8_000_000 as u16 is 4224; 4224 / 25500 is 0.
    assert_eq!(tim.psc, 0);
    assert!(!tim.ug);
    assert!(!tim.moe);
}

#[test]
fn attach_pc8_unlocks_duty_operations() {
    let mut ahb = Ahb { enr: 0, rstr: 0 };
    let parts = Gpioc.split(&mut ahb);
    let mut regs = parts.regs;
    let pin = parts.pc8.into_af4_push_pull(&mut regs);

    let mut tim = fresh_timer();
    let mut rcc = Rcc { tim3en: false, tim8en: false };
    let clocks = Clocks { pclk2: 64_000_000 };
    let channel = tim8(&mut tim, &mut rcc, 1000, 50, &clocks);
    let mut channel = channel.output_to_pc8(pin);

    assert_eq!(channel.get_max_duty(&tim), 1000);
    channel.set_duty(&mut tim, 250);
    assert_eq!(channel.get_duty(&tim), 250);
    channel.enable(&mut tim);
    assert!(tim.cc3e);
    channel.disable(&mut tim);
    assert!(!tim.cc3e);
}

#[test]
fn attach_pb9_is_the_other_candidate_pin() {
    let mut ahb = Ahb { enr: 0, rstr: 0 };
    let parts = Gpiob.split(&mut ahb);
    let mut regs = parts.regs;
    let pin = parts.pb9.into_af10_push_pull(&mut regs);

    let mut tim = fresh_timer();
    let mut rcc = Rcc { tim3en: false, tim8en: false };
    let clocks = Clocks { pclk2: 64_000_000 };
    let channel = tim8(&mut tim, &mut rcc, 500, 100, &clocks);
    let mut channel = channel.output_to_pb9(pin);
    channel.set_duty(&mut tim, 499);
    assert_eq!(channel.get_duty(&tim), 499);
}

#[test]
fn duty_values_above_the_resolution_are_stored_unchecked() {
    let mut ahb = Ahb { enr: 0, rstr: 0 };
    let parts = Gpioc.split(&mut ahb);
    let mut regs = parts.regs;
    let pin = parts.pc8.into_af4_push_pull(&mut regs);

    let mut tim = fresh_timer();
    let mut rcc = Rcc { tim3en: false, tim8en: false };
    let clocks = Clocks { pclk2: 64_000_000 };
    let channel = tim8(&mut tim, &mut rcc, 100, 50, &clocks);
    let mut channel = channel.output_to_pc8(pin);
    // 65535 far exceeds the resolution of 100; it is stored as given.
    assert_eq!(duty_round_trip(&mut channel, &mut tim, 65535), 65535);
    assert_eq!(channel.get_duty(&tim), 65535);
    assert_eq!(channel.get_max_duty(&tim), 100);
    assert_eq!(duty_round_trip(&mut channel, &mut tim, 0), 0);
}
