//! External-interrupt routing.
//!
//! Each pin number 0-15 is wired to one external-interrupt line of the
//! same number, shared across banks; a 4-bit routing field per line
//! selects which bank's pin drives it. Lines share interrupt-controller
//! identifiers: lines 0-4 map one-to-one, lines 5-9 share one identifier
//! and lines 10-15 share another.
//!
//! Routing and trigger configuration go through the atomic field-update
//! primitive, so pins of different numbers can be configured
//! concurrently. The pending-bit register needs no read-modify-write: it
//! is write-one-to-clear, each pin's bit independent.

use vstd::prelude::*;

use crate::field::{atomic_modify_at, field_get, field_set};
use crate::gpio::{Edge, Pin};
use crate::marker;

verus! {

/// Interrupt-controller line identifiers for the external-interrupt
/// lines.
///
/// On the touch-sense silicon family the grouping diverges: line 2 is
/// combined with the touch-sense controller, and lines 5-9 fire the
/// identifier listed in the reverse order. Selecting the family is a
/// build-configuration choice; both mappings are given below.
#[allow(non_camel_case_types)]
#[derive(Clone, Copy, Debug, PartialEq, Eq)]
pub enum Interrupt {
    /// Line 0.
    EXTI0,
    /// Line 1.
    EXTI1,
    /// Line 2, combined with the touch-sense controller (main family).
    EXTI2_TSC,
    /// Line 2, shared with the touch-sense interrupt (touch-sense
    /// family).
    EXTI2_TS,
    /// Line 3.
    EXTI3,
    /// Line 4.
    EXTI4,
    /// Lines 5 to 9, one shared identifier (main family).
    EXTI9_5,
    /// Lines 5 to 9, one shared identifier (touch-sense family).
    EXTI5_9,
    /// Lines 10 to 15, one shared identifier.
    EXTI15_10,
}

/// The interrupt-controller identifier fired by pin number `i`, for the
/// main silicon family. A pure function of the pin number alone: the
/// bank plays no part.
pub open spec fn spec_nvic_line(i: u8) -> Interrupt {
    if i == 0 {
        Interrupt::EXTI0
    } else if i == 1 {
        Interrupt::EXTI1
    } else if i == 2 {
        Interrupt::EXTI2_TSC
    } else if i == 3 {
        Interrupt::EXTI3
    } else if i == 4 {
        Interrupt::EXTI4
    } else if i <= 9 {
        Interrupt::EXTI9_5
    } else {
        Interrupt::EXTI15_10
    }
}

/// The interrupt-controller identifier fired by pin number `i`, for the
/// touch-sense silicon family: line 2 and the shared 5-9 identifier
/// diverge from the main family.
pub open spec fn spec_nvic_line_ts(i: u8) -> Interrupt {
    if i == 2 {
        Interrupt::EXTI2_TS
    } else if 5 <= i && i <= 9 {
        Interrupt::EXTI5_9
    } else {
        spec_nvic_line(i)
    }
}

/// The system-configuration block: four routing registers, each holding
/// four 4-bit fields that select which bank drives the matching
/// external-interrupt line. Callers need exclusive access to it while a
/// pin is made an interrupt source.
pub struct SysCfg {
    /// Routing fields for lines 0-3.
    pub exticr1: u32,
    /// Routing fields for lines 4-7.
    pub exticr2: u32,
    /// Routing fields for lines 8-11.
    pub exticr3: u32,
    /// Routing fields for lines 12-15.
    pub exticr4: u32,
}

/// The routing registers after line `i` is pointed at bank `p`.
pub open spec fn spec_route(s: SysCfg, i: u8, p: u32) -> SysCfg {
    if i < 4 {
        SysCfg {
            exticr1: field_set(s.exticr1, 4, i, p),
            exticr2: s.exticr2,
            exticr3: s.exticr3,
            exticr4: s.exticr4,
        }
    } else if i < 8 {
        SysCfg {
            exticr1: s.exticr1,
            exticr2: field_set(s.exticr2, 4, (i - 4) as u8, p),
            exticr3: s.exticr3,
            exticr4: s.exticr4,
        }
    } else if i < 12 {
        SysCfg {
            exticr1: s.exticr1,
            exticr2: s.exticr2,
            exticr3: field_set(s.exticr3, 4, (i - 8) as u8, p),
            exticr4: s.exticr4,
        }
    } else {
        SysCfg {
            exticr1: s.exticr1,
            exticr2: s.exticr2,
            exticr3: s.exticr3,
            exticr4: field_set(s.exticr4, 4, (i - 12) as u8, p),
        }
    }
}

/// The external-interrupt controller block: one bit per line in each
/// register. On family members with a second CPU these registers are
/// duplicated per CPU; which duplicate set this block stands for is a
/// build-configuration choice, not a run-time one.
pub struct Exti {
    /// Interrupt mask: a set bit unmasks the line.
    pub imr: u32,
    /// Rising-edge trigger enable.
    pub rtsr: u32,
    /// Falling-edge trigger enable.
    pub ftsr: u32,
    /// Pending bits, write-one-to-clear.
    pub pr: u32,
}

/// The rising-edge trigger bit selected by `e`.
pub open spec fn spec_edge_rise(e: Edge) -> u32 {
    match e {
        Edge::Rising => 1u32,
        Edge::Falling => 0u32,
        Edge::RisingFalling => 1u32,
    }
}

/// The falling-edge trigger bit selected by `e`.
pub open spec fn spec_edge_fall(e: Edge) -> u32 {
    match e {
        Edge::Rising => 0u32,
        Edge::Falling => 1u32,
        Edge::RisingFalling => 1u32,
    }
}

impl<Gpio, Index, Mode> Pin<Gpio, Index, Mode> where
    Gpio: marker::Gpio,
    Index: marker::Index,
    Mode: marker::Active,
 {
    /// NVIC interrupt number of interrupt from this pin, for the main
    /// silicon family: a pure function of the pin number, identical for
    /// every bank.
    pub fn nvic(&self) -> (r: Interrupt)
        ensures
            r == spec_nvic_line(self.spec_index()),
    {
        let i = self.pin_index();
        match i {
            0 => Interrupt::EXTI0,
            1 => Interrupt::EXTI1,
            2 => Interrupt::EXTI2_TSC,
            3 => Interrupt::EXTI3,
            4 => Interrupt::EXTI4,
            5..=9 => Interrupt::EXTI9_5,
            _ => Interrupt::EXTI15_10,
        }
    }

    /// Make the corresponding external-interrupt line sensitive to this
    /// pin: writes this bank's index into the line's 4-bit routing
    /// field, leaving the other three fields of that register and the
    /// other routing registers untouched.
    pub fn make_interrupt_source(&mut self, syscfg: &mut SysCfg)
        ensures
            *final(syscfg) == spec_route(
                *old(syscfg),
                old(self).spec_index(),
                old(self).spec_port() as u32,
            ),
            *final(self) == *old(self),
    {
        let i = self.pin_index();
        let p = self.pin_port() as u32;
        let sub = i % 4;
        if i < 4 {
            atomic_modify_at(&mut syscfg.exticr1, 4, sub, p);
        } else if i < 8 {
            atomic_modify_at(&mut syscfg.exticr2, 4, sub, p);
        } else if i < 12 {
            atomic_modify_at(&mut syscfg.exticr3, 4, sub, p);
        } else {
            atomic_modify_at(&mut syscfg.exticr4, 4, sub, p);
        }
    }

    /// Generate an interrupt on the rising edge, the falling edge, or
    /// both: sets the line's two 1-bit trigger-enable fields.
    pub fn trigger_on_edge(&mut self, exti: &mut Exti, edge: Edge)
        ensures
            final(exti).rtsr == field_set(
                old(exti).rtsr,
                1,
                old(self).spec_index(),
                spec_edge_rise(edge),
            ),
            final(exti).ftsr == field_set(
                old(exti).ftsr,
                1,
                old(self).spec_index(),
                spec_edge_fall(edge),
            ),
            final(exti).imr == old(exti).imr,
            final(exti).pr == old(exti).pr,
            *final(self) == *old(self),
    {
        let i = self.pin_index();
        let rise: u32 = match edge {
            Edge::Rising => 1,
            Edge::Falling => 0,
            Edge::RisingFalling => 1,
        };
        let fall: u32 = match edge {
            Edge::Rising => 0,
            Edge::Falling => 1,
            Edge::RisingFalling => 1,
        };
        atomic_modify_at(&mut exti.rtsr, 1, i, rise);
        atomic_modify_at(&mut exti.ftsr, 1, i, fall);
    }

    /// Enable external interrupts from this pin: sets the line's mask
    /// bit.
    pub fn enable_interrupt(&mut self, exti: &mut Exti)
        ensures
            final(exti).imr == field_set(old(exti).imr, 1, old(self).spec_index(), 1),
            final(exti).rtsr == old(exti).rtsr,
            final(exti).ftsr == old(exti).ftsr,
            final(exti).pr == old(exti).pr,
            *final(self) == *old(self),
    {
        let i = self.pin_index();
        atomic_modify_at(&mut exti.imr, 1, i, 1);
    }

    /// Disable external interrupts from this pin: clears the line's mask
    /// bit.
    pub fn disable_interrupt(&mut self, exti: &mut Exti)
        ensures
            final(exti).imr == field_set(old(exti).imr, 1, old(self).spec_index(), 0),
            final(exti).rtsr == old(exti).rtsr,
            final(exti).ftsr == old(exti).ftsr,
            final(exti).pr == old(exti).pr,
            *final(self) == *old(self),
    {
        let i = self.pin_index();
        atomic_modify_at(&mut exti.imr, 1, i, 0);
    }

    /// Clear the interrupt pending bit for this pin. The register is
    /// write-one-to-clear, so this is a single store, not a
    /// read-modify-write: writing a one to exactly this pin's bit clears
    /// it and leaves every other bit alone.
    pub fn clear_interrupt_pending_bit(&mut self, exti: &mut Exti)
        ensures
            final(exti).pr == field_set(old(exti).pr, 1, old(self).spec_index(), 0),
            final(exti).imr == old(exti).imr,
            final(exti).rtsr == old(exti).rtsr,
            final(exti).ftsr == old(exti).ftsr,
            *final(self) == *old(self),
    {
        let i = self.pin_index();
        let pr0 = exti.pr;
        exti.pr = pr0 & !(1u32 << (i as u32));
        proof {
            assert(pr0 & !(1u32 << (i as u32)) == field_set(pr0, 1, i, 0)) by (bit_vector)
                requires
                    i < 16,
            ;
        }
    }

    /// Reads the interrupt pending bit for this pin.
    pub fn check_interrupt(&self, exti: &Exti) -> (r: bool)
        ensures
            r == (field_get(exti.pr, 1, self.spec_index()) != 0),
    {
        let i = self.pin_index();
        let pr = exti.pr;
        let r = pr & (1u32 << (i as u32)) != 0;
        proof {
            assert((pr & (1u32 << (i as u32)) != 0) == (field_get(pr, 1, i) != 0)) by (bit_vector)
                requires
                    i < 16,
            ;
        }
        r
    }
}

/// The interrupt-controller identifier depends on the pin number alone,
/// and the lines are shared exactly as documented: pins 5-9 fire one
/// identifier, pins 10-15 another. Under the touch-sense family the
/// mapping diverges only at pin 2 and at the shared 5-9 identifier.
pub proof fn lemma_interrupt_lines_shared()
    ensures
        forall|i: u8| 5 <= i <= 9 ==> #[trigger] spec_nvic_line(i) == Interrupt::EXTI9_5,
        forall|i: u8| 10 <= i <= 15 ==> #[trigger] spec_nvic_line(i) == Interrupt::EXTI15_10,
        forall|i: u8| 5 <= i <= 9 ==> #[trigger] spec_nvic_line_ts(i) == Interrupt::EXTI5_9,
        spec_nvic_line_ts(2) == Interrupt::EXTI2_TS,
        spec_nvic_line(2) == Interrupt::EXTI2_TSC,
        forall|i: u8|
            i < 16 && i != 2 && !(5 <= i && i <= 9) ==> #[trigger] spec_nvic_line_ts(i)
                == spec_nvic_line(i),
{
}

} // verus!
