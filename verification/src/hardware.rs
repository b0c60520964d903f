//! The counter peripheral as the driver sees it.
//!
//! The peripheral has a free-running 24-bit counter, two compare slots and an
//! overflow event. Each event has a flag, which the hardware raises and
//! software clears, and an interrupt enable. What software has configured
//! (compare values, interrupt enables, whether the counter runs) changes only
//! when software writes it, and the contracts speak of it through
//! [`Registers`]. The counter and the event flags change on their own:
//! reading them promises nothing about the next read.
//!
//! The driver fires the alarm whenever an interrupt finds the flag of the
//! alarm's compare slot raised. It counts on the peripheral to raise the flag
//! of an event only while the interrupt of that event is on.

use vstd::prelude::*;
use crate::clock::COUNTER_RANGE;

verus! {

/// A compare slot, named by what the driver uses it for.
#[derive(Clone, Copy, PartialEq, Eq, Structural, Debug)]
pub enum Channel {
    /// Slot 0, which stays at the midpoint of the counter's range.
    Midpoint,
    /// Slot 1, which holds the low bits of the pending deadline.
    Alarm,
}

/// An event of the peripheral.
#[derive(Clone, Copy, PartialEq, Eq, Structural, Debug)]
pub enum Event {
    /// The counter wrapped to zero.
    Overflow,
    /// The counter reached the value in a compare slot.
    Compare(Channel),
}

/// The configuration of the peripheral: what software wrote last.
#[derive(Clone, Copy, PartialEq, Eq, Structural, Debug)]
pub struct Registers {
    /// Value in the compare slot `Channel::Midpoint`.
    pub midpoint_compare: u32,
    /// Value in the compare slot `Channel::Alarm`.
    pub alarm_compare: u32,
    /// Whether an overflow raises the interrupt.
    pub overflow_irq: bool,
    /// Whether a match in the slot `Channel::Midpoint` raises the interrupt.
    pub midpoint_irq: bool,
    /// Whether a match in the slot `Channel::Alarm` raises the interrupt.
    pub alarm_irq: bool,
    /// Whether the counter has been started.
    pub running: bool,
}

impl Registers {
    /// The compare value of `channel`.
    pub open spec fn compare(self, channel: Channel) -> u32 {
        match channel {
            Channel::Midpoint => self.midpoint_compare,
            Channel::Alarm => self.alarm_compare,
        }
    }

    /// Whether `event` raises the interrupt.
    pub open spec fn interrupt_enabled(self, event: Event) -> bool {
        match event {
            Event::Overflow => self.overflow_irq,
            Event::Compare(Channel::Midpoint) => self.midpoint_irq,
            Event::Compare(Channel::Alarm) => self.alarm_irq,
        }
    }

    /// The configuration after `value` was written to the slot `channel`.
    pub open spec fn with_compare(self, channel: Channel, value: u32) -> Registers {
        match channel {
            Channel::Midpoint => Registers { midpoint_compare: value, ..self },
            Channel::Alarm => Registers { alarm_compare: value, ..self },
        }
    }

    /// The configuration after the interrupt of `event` was switched on or off.
    pub open spec fn with_interrupt(self, event: Event, enabled: bool) -> Registers {
        match event {
            Event::Overflow => Registers { overflow_irq: enabled, ..self },
            Event::Compare(Channel::Midpoint) => Registers { midpoint_irq: enabled, ..self },
            Event::Compare(Channel::Alarm) => Registers { alarm_irq: enabled, ..self },
        }
    }

    /// The configuration after the counter was started.
    pub open spec fn started(self) -> Registers {
        Registers { running: true, ..self }
    }
}

/// One counter peripheral. Every method is a single register access.
///
/// The driver is verified against the contracts written here; that an
/// implementation meets them is on whoever writes it. An implementation
/// outside verified code gives `registers` an ordinary body that returns the
/// configuration as it stands.
pub trait Instance: Sized {
    /// The configuration as it stands.
    spec fn registers(&self) -> Registers;

    /// Reads the counter.
    fn counter(&self) -> (value: u32)
        ensures
            value < COUNTER_RANGE,
    ;

    /// Reads the flag of `event`.
    fn event(&self, event: Event) -> (raised: bool)
    ;

    /// Clears the flag of `event`.
    fn clear_event(&mut self, event: Event)
        ensures
            final(self).registers() == old(self).registers(),
    ;

    /// Writes `value` to the compare slot `channel`.
    fn set_compare(&mut self, channel: Channel, value: u32)
        requires
            value < COUNTER_RANGE,
        ensures
            final(self).registers() == old(self).registers().with_compare(channel, value),
    ;

    /// Lets `event` raise the interrupt.
    fn enable_interrupt(&mut self, event: Event)
        ensures
            final(self).registers() == old(self).registers().with_interrupt(event, true),
    ;

    /// Keeps `event` from raising the interrupt.
    fn disable_interrupt(&mut self, event: Event)
        ensures
            final(self).registers() == old(self).registers().with_interrupt(event, false),
    ;

    /// Asks the counter to go back to zero. The counter follows some ticks
    /// later.
    fn clear_counter(&mut self)
        ensures
            final(self).registers() == old(self).registers(),
    ;

    /// Starts the counter.
    fn start_counter(&mut self)
        ensures
            final(self).registers() == old(self).registers().started(),
    ;
}

} // verus!
