use gpio_hal::exti::{Exti, Interrupt, SysCfg};
use gpio_hal::gpio::{Edge, GpioExt};
use gpio_hal::gpioa::Gpioa;
use gpio_hal::gpiob::Gpiob;
use gpio_hal::gpioc::Gpioc;
use gpio_hal::reg::Ahb;

fn fresh_ahb() -> Ahb {
    Ahb { enr: 0, rstr: 0 }
}

fn fresh_syscfg() -> SysCfg {
    SysCfg { exticr1: 0, exticr2: 0, exticr3: 0, exticr4: 0 }
}

fn fresh_exti() -> Exti {
    Exti { imr: 0, rtsr: 0, ftsr: 0, pr: 0 }
}

#[test]
fn nvic_maps_lines_exactly() {
    let mut ahb = fresh_ahb();
    let a = Gpioa.split(&mut ahb);
    assert_eq!(a.pa0.nvic(), Interrupt::EXTI0);
    assert_eq!(a.pa1.nvic(), Interrupt::EXTI1);
    assert_eq!(a.pa2.nvic(), Interrupt::EXTI2_TSC);
    assert_eq!(a.pa3.nvic(), Interrupt::EXTI3);
    assert_eq!(a.pa4.nvic(), Interrupt::EXTI4);
    // Pins 5 to 9 share one identifier.
    assert_eq!(a.pa5.nvic(), Interrupt::EXTI9_5);
    assert_eq!(a.pa6.nvic(), Interrupt::EXTI9_5);
    assert_eq!(a.pa7.nvic(), Interrupt::EXTI9_5);
    assert_eq!(a.pa8.nvic(), Interrupt::EXTI9_5);
    assert_eq!(a.pa9.nvic(), Interrupt::EXTI9_5);
    // Pins 10 to 15 share another.
    assert_eq!(a.pa10.nvic(), Interrupt::EXTI15_10);
    assert_eq!(a.pa11.nvic(), Interrupt::EXTI15_10);
    assert_eq!(a.pa12.nvic(), Interrupt::EXTI15_10);
    assert_eq!(a.pa13.nvic(), Interrupt::EXTI15_10);
    assert_eq!(a.pa14.nvic(), Interrupt::EXTI15_10);
    assert_eq!(a.pa15.nvic(), Interrupt::EXTI15_10);
}

#[test]
fn nvic_is_stable_across_ports() {
    let mut ahb = fresh_ahb();
    let b = Gpiob.split(&mut ahb);
    let c = Gpioc.split(&mut ahb);
    assert_eq!(b.pb7.nvic(), Interrupt::EXTI9_5);
    assert_eq!(c.pc7.nvic(), Interrupt::EXTI9_5);
    assert_eq!(b.pb12.nvic(), Interrupt::EXTI15_10);
    assert_eq!(c.pc12.nvic(), Interrupt::EXTI15_10);
    assert_eq!(b.pb0.nvic(), Interrupt::EXTI0);
    assert_eq!(c.pc0.nvic(), Interrupt::EXTI0);
}

#[test]
fn make_interrupt_source_routes_the_right_field() {
    let mut ahb = fresh_ahb();
    let b = Gpiob.split(&mut ahb);
    let mut syscfg = fresh_syscfg();
    let mut pin = b.pb6;
    pin.make_interrupt_source(&mut syscfg);
    // Pin 6 routes through the second register, field 2; bank B is 1.
    assert_eq!(syscfg.exticr1, 0);
    assert_eq!((syscfg.exticr2 >> 8) & 0xF, 1);
    assert_eq!(syscfg.exticr3, 0);
    assert_eq!(syscfg.exticr4, 0);

    let c = Gpioc.split(&mut ahb);
    let mut pin13 = c.pc13;
    pin13.make_interrupt_source(&mut syscfg);
    // Pin 13 routes through the fourth register, field 1; bank C is 2.
    assert_eq!((syscfg.exticr4 >> 4) & 0xF, 2);
    // The earlier routing survives untouched.
    assert_eq!((syscfg.exticr2 >> 8) & 0xF, 1);
}

#[test]
fn trigger_on_edge_sets_trigger_bits() {
    let mut ahb = fresh_ahb();
    let a = Gpioa.split(&mut ahb);
    let mut exti = fresh_exti();
    let mut pin = a.pa3;
    pin.trigger_on_edge(&mut exti, Edge::Rising);
    assert_eq!((exti.rtsr >> 3) & 1, 1);
    assert_eq!((exti.ftsr >> 3) & 1, 0);
    pin.trigger_on_edge(&mut exti, Edge::Falling);
    assert_eq!((exti.rtsr >> 3) & 1, 0);
    assert_eq!((exti.ftsr >> 3) & 1, 1);
    pin.trigger_on_edge(&mut exti, Edge::RisingFalling);
    assert_eq!((exti.rtsr >> 3) & 1, 1);
    assert_eq!((exti.ftsr >> 3) & 1, 1);
}

#[test]
fn enable_and_disable_interrupt_toggle_the_mask() {
    let mut ahb = fresh_ahb();
    let a = Gpioa.split(&mut ahb);
    let mut exti = fresh_exti();
    let mut pin = a.pa11;
    pin.enable_interrupt(&mut exti);
    assert_eq!(exti.imr, 1 << 11);
    pin.disable_interrupt(&mut exti);
    assert_eq!(exti.imr, 0);
}

#[test]
fn pending_bit_check_and_clear() {
    let mut ahb = fresh_ahb();
    let a = Gpioa.split(&mut ahb);
    let mut exti = fresh_exti();
    let mut pin = a.pa6;
    assert!(!pin.check_interrupt(&exti));
    // The line fires: hardware latches the pending bit.
    exti.pr = (1 << 6) | (1 << 9);
    assert!(pin.check_interrupt(&exti));
    pin.clear_interrupt_pending_bit(&mut exti);
    assert!(!pin.check_interrupt(&exti));
    // Write-one-to-clear: the other pending bit is untouched.
    assert_eq!(exti.pr, 1 << 9);
}
