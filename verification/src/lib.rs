//! Timekeeping on a 24-bit wrapping hardware counter: a 64-bit monotonic
//! tick count and a single-shot alarm.
//!
//! [`calc_now`] turns a period count and a raw counter value into the tick
//! count. [`RTC`] counts the periods from the interrupts of the peripheral,
//! which it reaches through [`Instance`], and holds the one alarm.

pub mod alarm;
pub mod clock;
pub mod driver;
pub mod hardware;
pub mod state;

pub use alarm::{timing, Timing, NO_ALARM, REACH};
pub use clock::calc_now;
pub use driver::{Alarm, RTC};
pub use hardware::{Channel, Event, Instance, Registers};
