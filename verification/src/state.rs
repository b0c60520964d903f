//! The driver as a state machine: what each operation does to the period,
//! the alarm slot and the configuration of the peripheral.

use vstd::prelude::*;
use crate::alarm::{compare_value, period_start, timing_at, within_reach, Timing, NO_ALARM};
use crate::clock::{lemma_reconstruct_in_window, tick_count};
use crate::hardware::{Channel, Event, Registers};

verus! {

/// What the driver holds and what it has configured.
pub struct State<F> {
    /// Periods of 2^23 ticks counted since start.
    pub period: u32,
    /// Tick count at which the alarm is to fire, `NO_ALARM` without one.
    pub deadline: u64,
    /// What to call when the alarm fires.
    pub callback: Option<F>,
    /// The configuration of the peripheral.
    pub registers: Registers,
}

impl<F> State<F> {
    /// A driver just made, on a peripheral configured as `registers`.
    pub open spec fn initial(registers: Registers) -> State<F> {
        State { period: 0, deadline: NO_ALARM, callback: None, registers }
    }

    /// Whether no alarm is pending.
    pub open spec fn idle(self) -> bool {
        self.deadline == NO_ALARM && self.callback is None
    }

    /// Whether the compare slot of the alarm is armed for the deadline.
    pub open spec fn armed(self) -> bool {
        self.registers.alarm_irq && self.registers.alarm_compare == compare_value(self.deadline)
    }

    /// After `start`: the midpoint slot set, the interrupts of overflow and
    /// midpoint on, the counter running.
    pub open spec fn started(self) -> State<F> {
        State {
            registers: self.registers.with_compare(Channel::Midpoint, 0x80_0000).with_interrupt(
                Event::Overflow,
                true,
            ).with_interrupt(Event::Compare(Channel::Midpoint), true).started(),
            ..self
        }
    }

    /// The compare slot armed for the deadline.
    pub open spec fn arm(self) -> State<F> {
        State {
            registers: self.registers.with_compare(
                Channel::Alarm,
                compare_value(self.deadline),
            ).with_interrupt(Event::Compare(Channel::Alarm), true),
            ..self
        }
    }

    /// The interrupt of the alarm's compare slot off.
    pub open spec fn disarm(self) -> State<F> {
        State {
            registers: self.registers.with_interrupt(Event::Compare(Channel::Alarm), false),
            ..self
        }
    }

    /// After a change of period: one period on, and the compare slot armed
    /// if the deadline is within reach of the start of the new period.
    pub open spec fn next_period(self) -> State<F> {
        let period = if self.period == u32::MAX {
            0u32
        } else {
            (self.period + 1) as u32
        };
        let moved = State { period, ..self };
        if within_reach(self.deadline, period_start(period)) {
            moved.arm()
        } else {
            moved
        }
    }

    /// After the alarm fired: the compare interrupt off and the slot empty.
    /// The callback that was in the slot goes to the caller.
    pub open spec fn fire(self) -> State<F> {
        State { deadline: NO_ALARM, callback: None, ..self.disarm() }
    }

    /// With `deadline` and `callback` in the slot, in place of what was
    /// there.
    pub open spec fn store(self, deadline: u64, callback: Option<F>) -> State<F> {
        State { deadline, callback, ..self }
    }

    /// After the alarm was fired if `now` has reached the deadline.
    pub open spec fn fire_if_due(self, now: u64) -> State<F> {
        if self.deadline <= now {
            self.fire()
        } else {
            self
        }
    }

    /// Whether setting an alarm for `deadline` fires it at once, where the
    /// counter reads `first` when the alarm is set and `second` after the
    /// compare slot was armed.
    pub open spec fn set_alarm_fires(self, deadline: u64, first: u32, second: u32) -> bool {
        match timing_at(deadline, tick_count(self.period, first)) {
            Timing::Due => true,
            Timing::Near => deadline <= tick_count(self.period, second),
            Timing::Far => false,
        }
    }

    /// After an alarm was set, with the counter readings of
    /// `set_alarm_fires`.
    pub open spec fn set_alarm(
        self,
        deadline: u64,
        callback: Option<F>,
        first: u32,
        second: u32,
    ) -> State<F> {
        let stored = self.store(deadline, callback);
        match timing_at(deadline, tick_count(self.period, first)) {
            Timing::Due => stored.fire(),
            Timing::Near => stored.arm().fire_if_due(tick_count(self.period, second)),
            Timing::Far => stored.disarm(),
        }
    }

    /// After `event` was handled.
    pub open spec fn handle(self, event: Event) -> State<F> {
        match event {
            Event::Overflow => self.next_period(),
            Event::Compare(Channel::Midpoint) => self.next_period(),
            Event::Compare(Channel::Alarm) => self.fire(),
        }
    }

    /// After an interrupt that found the flags of overflow, midpoint and
    /// alarm as given: the events are handled in that order.
    pub open spec fn interrupt(self, overflow: bool, midpoint: bool, alarm: bool) -> State<F> {
        let a = if overflow {
            self.handle(Event::Overflow)
        } else {
            self
        };
        let b = if midpoint {
            a.handle(Event::Compare(Channel::Midpoint))
        } else {
            a
        };
        if alarm {
            b.handle(Event::Compare(Channel::Alarm))
        } else {
            b
        }
    }
}

/// What one interrupt found: the flags of overflow, midpoint and alarm.
pub struct Flags {
    pub overflow: bool,
    pub midpoint: bool,
    pub alarm: bool,
}

impl<F> State<F> {
    /// Whether the compare interrupt of the alarm, if it is on, is on for
    /// the deadline in the slot.
    pub open spec fn consistent(self) -> bool {
        self.registers.alarm_irq ==> self.armed()
    }

    /// The callback that an interrupt hands out.
    pub open spec fn interrupt_fires(self, alarm: bool) -> Option<F> {
        if alarm {
            self.callback
        } else {
            None
        }
    }

    /// After the interrupts in `flags`, one after the other.
    pub open spec fn interrupts(self, flags: Seq<Flags>) -> State<F>
        decreases flags.len(),
    {
        if flags.len() == 0 {
            self
        } else {
            let last = flags.last();
            self.interrupts(flags.drop_last()).interrupt(last.overflow, last.midpoint, last.alarm)
        }
    }
}

/// A deadline that the clock has reached when the alarm is set fires at
/// once: the callback goes back to the caller, the slot is empty and the
/// compare interrupt is off. The same holds where the deadline was near and
/// had passed by the second look at the clock.
pub proof fn lemma_due_alarm_fires<F>(
    s: State<F>,
    deadline: u64,
    callback: Option<F>,
    first: u32,
    second: u32,
)
    requires
        deadline <= tick_count(s.period, first) || (deadline - tick_count(s.period, first)
            < 0xC0_0000 && deadline <= tick_count(s.period, second)),
    ensures
        s.set_alarm_fires(deadline, first, second),
        s.set_alarm(deadline, callback, first, second).idle(),
        !s.set_alarm(deadline, callback, first, second).registers.alarm_irq,
{
}

/// An alarm that was set and has not fired is in the slot. Its compare
/// interrupt is on, with the low bits of the deadline in the compare slot, if
/// the deadline was less than `REACH` ticks ahead, and off if it was further:
/// a far deadline is left to the changes of period.
pub proof fn lemma_pending_alarm<F>(
    s: State<F>,
    deadline: u64,
    callback: Option<F>,
    first: u32,
    second: u32,
)
    requires
        !s.set_alarm_fires(deadline, first, second),
    ensures
        ({
            let after = s.set_alarm(deadline, callback, first, second);
            let now = tick_count(s.period, first);
            &&& after.period == s.period
            &&& after.deadline == deadline
            &&& after.callback == callback
            &&& now < deadline
            &&& deadline - now < 0xC0_0000 ==> after.armed()
            &&& deadline - now >= 0xC0_0000 ==> !after.registers.alarm_irq
            &&& after.registers == if deadline - now < 0xC0_0000 {
                s.store(deadline, callback).arm().registers
            } else {
                s.disarm().registers
            }
        }),
{
}

/// Setting an alarm takes no account of the alarm that was in the slot.
pub proof fn lemma_set_alarm_supersedes<F>(
    s: State<F>,
    earlier: u64,
    earlier_callback: Option<F>,
    deadline: u64,
    callback: Option<F>,
    first: u32,
    second: u32,
)
    ensures
        s.store(earlier, earlier_callback).set_alarm(deadline, callback, first, second)
            == s.set_alarm(deadline, callback, first, second),
        s.store(earlier, earlier_callback).set_alarm_fires(deadline, first, second)
            == s.set_alarm_fires(deadline, first, second),
{
}

/// Clearing the alarm, which is setting it to `NO_ALARM` without a callback,
/// leaves no alarm pending and hands no callback out, whatever the clock
/// reads.
pub proof fn lemma_clear_is_idle<F>(s: State<F>, first: u32, second: u32)
    ensures
        s.set_alarm(NO_ALARM, None, first, second).idle(),
        s.set_alarm(NO_ALARM, None, first, second).period == s.period,
{
}

/// A change of period arms the compare slot exactly when the deadline is
/// within reach of the start of the new period, and otherwise leaves the
/// configuration alone. It never touches the slot.
pub proof fn lemma_next_period<F>(s: State<F>)
    ensures
        ({
            let after = s.next_period();
            &&& after.deadline == s.deadline
            &&& after.callback == s.callback
            &&& s.period < u32::MAX ==> after.period == s.period + 1
            &&& within_reach(s.deadline, period_start(after.period)) ==> after.armed()
            &&& !within_reach(s.deadline, period_start(after.period)) ==> after.registers
                == s.registers
            &&& s.idle() ==> after.registers == s.registers
        }),
{
}

/// Firing empties the slot before anyone sees the callback: no alarm is
/// pending and the compare interrupt is off. An alarm set after that is
/// subject only to `set_alarm`.
pub proof fn lemma_fire_empties_slot<F>(s: State<F>)
    ensures
        s.fire().idle(),
        !s.fire().registers.alarm_irq,
        s.fire().period == s.period,
        s.fire().fire() == s.fire(),
{
}

/// Without a callback in the slot an interrupt hands none out and puts none
/// in; without an alarm pending none is pending afterwards.
pub proof fn lemma_interrupt_keeps_idle<F>(
    s: State<F>,
    overflow: bool,
    midpoint: bool,
    alarm: bool,
)
    ensures
        s.callback is None ==> s.interrupt_fires(alarm) is None && s.interrupt(
            overflow,
            midpoint,
            alarm,
        ).callback is None,
        s.idle() ==> s.interrupt(overflow, midpoint, alarm).idle(),
{
}

/// Cancellation: once no alarm is pending, no run of interrupts hands a
/// callback out, however far time advances.
pub proof fn lemma_interrupts_keep_idle<F>(s: State<F>, flags: Seq<Flags>)
    requires
        s.idle(),
    ensures
        s.interrupts(flags).idle(),
        forall|n: int|
            0 <= n < flags.len() ==> (#[trigger] s.interrupts(flags.take(n))).interrupt_fires(
                flags[n].alarm,
            ) is None,
    decreases flags.len(),
{
    if flags.len() > 0 {
        let last = flags.last();
        let init = flags.drop_last();
        lemma_interrupts_keep_idle(s, init);
        lemma_interrupt_keeps_idle(s.interrupts(init), last.overflow, last.midpoint, last.alarm);
        assert forall|n: int| 0 <= n < flags.len() implies (#[trigger] s.interrupts(
            flags.take(n),
        )).interrupt_fires(flags[n].alarm) is None by {
            if n < init.len() {
                assert(flags.take(n) == init.take(n));
            } else {
                assert(flags.take(n) == init);
            }
        }
    }
}

/// At most one alarm is armed: once the compare interrupt is on only for
/// the deadline in the slot, every operation keeps it so.
pub proof fn lemma_consistent_is_kept<F>(
    s: State<F>,
    deadline: u64,
    callback: Option<F>,
    first: u32,
    second: u32,
    now: u64,
    overflow: bool,
    midpoint: bool,
    alarm: bool,
)
    ensures
        s.set_alarm(deadline, callback, first, second).consistent(),
        s.fire().consistent(),
        s.consistent() ==> s.started().consistent(),
        s.consistent() ==> s.next_period().consistent(),
        s.consistent() ==> s.fire_if_due(now).consistent(),
        s.consistent() ==> s.interrupt(overflow, midpoint, alarm).consistent(),
{
}

/// The compare slot fires at the deadline. While a deadline is less than the
/// counter's range ahead, no tick before it has the deadline's low bits: the
/// first match of the compare slot after it was armed is at the deadline.
pub proof fn lemma_first_match_is_deadline(now: u64, deadline: u64, ticks: u64)
    requires
        now <= ticks < deadline,
        deadline - now < 0x100_0000,
    ensures
        compare_value(ticks) != compare_value(deadline),
{
    let a = ticks as int;
    let b = deadline as int;
    if a % 0x100_0000 == b % 0x100_0000 {
        let qa = a / 0x100_0000;
        let qb = b / 0x100_0000;
        assert(a == qa * 0x100_0000 + a % 0x100_0000);
        assert(b == qb * 0x100_0000 + b % 0x100_0000);
        assert(b - a == (qb - qa) * 0x100_0000);
        assert(false) by (nonlinear_arith)
            requires
                0 < b - a < 0x100_0000,
                b - a == (qb - qa) * 0x100_0000,
        ;
    }
}

/// When the compare slot matches an alarm that a change of period armed,
/// the clock reads the deadline: the period and the low bits of the deadline
/// are reconstructed to the deadline, and so are the next period, once the
/// counter has passed its midpoint, and those bits.
pub proof fn lemma_match_reads_deadline(period: u32, deadline: u64)
    requires
        within_reach(deadline, period_start(period)),
    ensures
        tick_count(period, compare_value(deadline)) == deadline,
        period < u32::MAX && deadline >= period_start(period) + 0x40_0000 ==> tick_count(
            (period + 1) as u32,
            compare_value(deadline),
        ) == deadline,
{
    lemma_reconstruct_in_window(period as int, deadline as int);
    if period < u32::MAX && deadline >= period_start(period) + 0x40_0000 {
        lemma_reconstruct_in_window(period + 1, deadline as int);
    }
}

} // verus!
