//! A GPIO and PWM hardware-abstraction layer with machine-checked contracts.
//!
//! The library models a microcontroller's general-purpose I/O banks and two
//! PWM timer channels. Pins are capability tokens whose electrical mode is
//! tracked in the type system; every configuration change goes through an
//! atomic bit-field update on a shared register word, and the field algebra
//! that makes concurrent updates of different pins safe is proved here.

pub mod exti;
pub mod field;
pub mod gpio;
pub mod gpioa;
pub mod gpiob;
pub mod gpioc;
pub mod gpiod;
pub mod gpioe;
pub mod gpiof;
pub mod marker;
pub mod pwm;
pub mod reg;
