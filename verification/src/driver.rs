//! The driver: period counting, the alarm slot, and the register accesses
//! that go with them.

use vstd::prelude::*;
use crate::alarm::{is_within_reach, low_bits, start_of_period, timing, Timing, NO_ALARM};
use crate::clock::{calc_now, tick_count, COUNTER_RANGE};
use crate::hardware::{Channel, Event, Instance};
use crate::state::State;

verus! {

/// A real-time counter turned into a 64-bit clock with one alarm.
///
/// The driver does not call the alarm's callback. An operation that fires
/// the alarm empties the slot and hands the callback to its caller, who calls
/// it once the driver is free again: the callback may then set the next
/// alarm.
pub struct RTC<T: Instance, F> {
    rtc: T,
    /// Periods of 2^23 ticks since start: one more at each overflow and at
    /// each pass of the midpoint. Even while the counter is in the lower half
    /// of its range, odd while it is in the upper half.
    period: u32,
    /// Tick count at which to fire the alarm, `NO_ALARM` without one.
    deadline: u64,
    callback: Option<F>,
}

impl<T: Instance, F> View for RTC<T, F> {
    type V = State<F>;

    closed spec fn view(&self) -> State<F> {
        State {
            period: self.period,
            deadline: self.deadline,
            callback: self.callback,
            registers: self.rtc.registers(),
        }
    }
}

impl<T: Instance, F> RTC<T, F> {
    /// A driver for the peripheral `rtc`: period zero, no alarm.
    pub fn new(rtc: T) -> (driver: Self)
        ensures
            driver@ == State::<F>::initial(rtc.registers()),
    {
        RTC { rtc, period: 0, deadline: NO_ALARM, callback: None }
    }

    /// The periods counted so far.
    pub fn period(&self) -> (period: u32)
        ensures
            period == self@.period,
    {
        self.period
    }

    /// The deadline of the pending alarm, `NO_ALARM` if none is pending.
    pub fn deadline(&self) -> (deadline: u64)
        ensures
            deadline == self@.deadline,
    {
        self.deadline
    }

    /// Sets the peripheral up and starts it: the midpoint compare slot, the
    /// interrupts of overflow and midpoint, then the commands to clear and to
    /// start the counter. The counter reads zero some ticks later; until
    /// `now` returns zero no interrupt should reach the driver.
    pub fn start(&mut self)
        ensures
            final(self)@ == old(self)@.started(),
    {
        self.rtc.set_compare(Channel::Midpoint, 0x80_0000);
        self.rtc.enable_interrupt(Event::Overflow);
        self.rtc.enable_interrupt(Event::Compare(Channel::Midpoint));
        self.rtc.clear_counter();
        self.rtc.start_counter();
    }

    /// The tick count now: what the period and one reading of the counter
    /// stand for.
    pub fn now(&self) -> (t: u64)
        ensures
            exists|counter: u32| counter < COUNTER_RANGE && t == #[trigger] tick_count(
                self@.period,
                counter,
            ),
    {
        let counter = self.rtc.counter();
        let t = calc_now(self.period, counter);
        assert(t == tick_count(self@.period, counter));
        t
    }

    /// Handles an interrupt of the peripheral: for overflow, midpoint and
    /// alarm, in this order, looks at the flag and, if it is raised, clears
    /// it and handles the event. Returns the callback of the alarm if it
    /// fired.
    pub fn on_interrupt(&mut self) -> (fired: Option<F>)
        ensures
            exists|overflow: bool, midpoint: bool, alarm: bool|
                {
                    &&& final(self)@ == #[trigger] old(self)@.interrupt(overflow, midpoint, alarm)
                    &&& fired == if alarm {
                        old(self)@.callback
                    } else {
                        None
                    }
                },
    {
        let ghost before = self@;
        let overflow = self.rtc.event(Event::Overflow);
        if overflow {
            let _ = self.handle_event(Event::Overflow);
        }
        let midpoint = self.rtc.event(Event::Compare(Channel::Midpoint));
        if midpoint {
            let _ = self.handle_event(Event::Compare(Channel::Midpoint));
        }
        let alarm = self.rtc.event(Event::Compare(Channel::Alarm));
        let fired = if alarm {
            self.handle_event(Event::Compare(Channel::Alarm))
        } else {
            None
        };
        assert(self@ == before.interrupt(overflow, midpoint, alarm));
        fired
    }

    /// Clears the flag of `event` and handles it: a change of period for
    /// overflow and midpoint, the alarm for its compare slot. Returns the
    /// callback of the alarm if it fired.
    pub fn handle_event(&mut self, event: Event) -> (fired: Option<F>)
        ensures
            final(self)@ == old(self)@.handle(event),
            fired == if event == Event::Compare(Channel::Alarm) {
                old(self)@.callback
            } else {
                None
            },
    {
        self.rtc.clear_event(event);
        match event {
            Event::Overflow => {
                self.next_period();
                None
            },
            Event::Compare(Channel::Midpoint) => {
                self.next_period();
                None
            },
            Event::Compare(Channel::Alarm) => self.trigger_alarm(),
        }
    }

    /// Counts one period on, and arms the compare slot if the deadline has
    /// come within reach of the start of the new period.
    pub fn next_period(&mut self)
        ensures
            final(self)@ == old(self)@.next_period(),
    {
        self.period = self.period.wrapping_add(1);
        let t = start_of_period(self.period);
        if is_within_reach(self.deadline, t) {
            self.arm();
        }
    }

    /// Fires the alarm: switches the compare interrupt off, empties the slot
    /// and returns the callback that was in it.
    pub fn trigger_alarm(&mut self) -> (callback: Option<F>)
        ensures
            final(self)@ == old(self)@.fire(),
            callback == old(self)@.callback,
    {
        self.rtc.disable_interrupt(Event::Compare(Channel::Alarm));
        self.deadline = NO_ALARM;
        self.callback.take()
    }

    /// Fires the alarm if `now` has reached its deadline.
    pub fn fire_if_due(&mut self, now: u64) -> (callback: Option<F>)
        ensures
            final(self)@ == old(self)@.fire_if_due(now),
            callback == if old(self)@.deadline <= now {
                old(self)@.callback
            } else {
                None
            },
    {
        if self.deadline <= now {
            self.trigger_alarm()
        } else {
            None
        }
    }

    /// Puts `timestamp` and `callback` in the slot, in place of what was
    /// there, and fires, arms or defers the alarm by how far ahead the
    /// deadline is. After arming it looks at the clock once more: the
    /// deadline may have passed before the compare slot was written, and then
    /// the slot will not match. Returns `callback` if the alarm fired.
    pub fn do_set_alarm(&mut self, timestamp: u64, callback: Option<F>) -> (fired: Option<F>)
        ensures
            final(self)@.period == old(self)@.period,
            final(self)@.consistent(),
            (final(self)@.idle() && fired == callback) || (final(self)@.deadline == timestamp
                && final(self)@.callback == callback && fired is None),
            exists|first: u32, second: u32|
                {
                    &&& first < COUNTER_RANGE
                    &&& second < COUNTER_RANGE
                    &&& final(self)@ == #[trigger] old(self)@.set_alarm(
                        timestamp,
                        callback,
                        first,
                        second,
                    )
                    &&& fired == if old(self)@.set_alarm_fires(timestamp, first, second) {
                        callback
                    } else {
                        None
                    }
                },
    {
        let ghost before = self@;
        self.deadline = timestamp;
        self.callback = callback;
        let t = self.now();
        let ghost first = choose|counter: u32|
            counter < COUNTER_RANGE && t == #[trigger] tick_count(self@.period, counter);
        match timing(timestamp, t) {
            Timing::Due => {
                let fired = self.trigger_alarm();
                assert(self@ == before.set_alarm(timestamp, callback, first, 0));
                fired
            },
            Timing::Near => {
                self.arm();
                let t = self.now();
                let ghost second = choose|counter: u32|
                    counter < COUNTER_RANGE && t == #[trigger] tick_count(self@.period, counter);
                let fired = self.fire_if_due(t);
                assert(self@ == before.set_alarm(timestamp, callback, first, second));
                fired
            },
            Timing::Far => {
                self.disarm();
                assert(self@ == before.set_alarm(timestamp, callback, first, 0));
                None
            },
        }
    }

    /// A handle to set and clear the alarm.
    pub fn alarm0(&mut self) -> (alarm: Alarm<'_, T, F>)
        ensures
            *alarm.rtc == *old(self),
            *final(self) == *final(alarm.rtc),
    {
        Alarm { rtc: self }
    }

    /// Writes the low bits of the deadline to the compare slot and switches
    /// its interrupt on.
    fn arm(&mut self)
        ensures
            final(self)@ == old(self)@.arm(),
    {
        self.rtc.set_compare(Channel::Alarm, low_bits(self.deadline));
        self.rtc.enable_interrupt(Event::Compare(Channel::Alarm));
    }

    /// Switches the interrupt of the alarm's compare slot off.
    fn disarm(&mut self)
        ensures
            final(self)@ == old(self)@.disarm(),
    {
        self.rtc.disable_interrupt(Event::Compare(Channel::Alarm));
    }
}

/// The alarm of a driver, for whoever schedules with it.
///
/// The handle borrows the driver; what it did shows on the driver when the
/// handle is gone.
pub struct Alarm<'a, T: Instance, F> {
    /// The driver, borrowed for as long as the handle lives.
    pub rtc: &'a mut RTC<T, F>,
}

impl<'a, T: Instance, F> Alarm<'a, T, F> {
    /// Sets the alarm to `timestamp`, in place of the one that was pending.
    /// Returns `callback` if the alarm fired at once: the caller calls it.
    pub fn set(&mut self, timestamp: u64, callback: F) -> (fired: Option<F>)
        ensures
            exists|first: u32, second: u32|
                {
                    &&& first < COUNTER_RANGE
                    &&& second < COUNTER_RANGE
                    &&& final(self).rtc@ == #[trigger] old(self).rtc@.set_alarm(
                        timestamp,
                        Some(callback),
                        first,
                        second,
                    )
                    &&& fired == if old(self).rtc@.set_alarm_fires(timestamp, first, second) {
                        Some(callback)
                    } else {
                        None
                    }
                },
            *final(final(self).rtc) == *final(old(self).rtc),
    {
        self.rtc.do_set_alarm(timestamp, Some(callback))
    }

    /// Clears the alarm: afterwards none is pending.
    pub fn clear(&mut self)
        ensures
            exists|first: u32, second: u32|
                {
                    &&& first < COUNTER_RANGE
                    &&& second < COUNTER_RANGE
                    &&& final(self).rtc@ == #[trigger] old(self).rtc@.set_alarm(
                        NO_ALARM,
                        None,
                        first,
                        second,
                    )
                },
            final(self).rtc@.idle(),
            *final(final(self).rtc) == *final(old(self).rtc),
    {
        let _ = self.rtc.do_set_alarm(NO_ALARM, None);
    }
}

} // verus!
