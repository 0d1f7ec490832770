//! A 16-bit low-power timer extended in software to 32 bits.
//!
//! The hardware counter overflows every 2 seconds at 32.768 kHz; an overflow
//! counter holds the upper 16 bits. The registers themselves are read and
//! written by the caller, who hands the values read to these functions.
use vstd::prelude::*;

verus! {

/// Frequency of the low-speed external oscillator that drives the timer, in Hz.
pub const LSE_FREQ: u32 = 32_768;

/// Largest value that the compare register holds.
pub const COMPARE_MAX: u32 = 0xffff;

/// `a - b`, wrapping around at 2^32.
pub open spec fn wrapping_diff(a: u32, b: u32) -> u32 {
    if a >= b {
        (a - b) as u32
    } else {
        (a + 0x1_0000_0000 - b) as u32
    }
}

/// Relies on fugit's `Instant::checked_duration_since` for instants of
/// `LSE_FREQ` ticks per second: `None` when `instant` lies more than half the
/// tick range before `now` (its `const_cmp` says `Less`), otherwise the
/// wrapping difference in ticks.
#[verifier::external_body]
fn ticks_since(instant: u32, now: u32) -> (r: Option<u32>)
    ensures
        r == if wrapping_diff(instant, now) > u32::MAX / 2 {
            None
        } else {
            Some(wrapping_diff(instant, now))
        },
{
    fugit::TimerInstantU32::<LSE_FREQ>::from_ticks(instant).checked_duration_since(
        fugit::TimerInstantU32::<LSE_FREQ>::from_ticks(now),
    ).map(|d| d.ticks())
}

/// The compare register value for a deadline at `instant` seen at `now`: the
/// low 16 bits of `instant` when it lies at most `COMPARE_MAX` ticks ahead,
/// otherwise 0 (a deadline too far ahead, or in the past, is rescheduled by
/// the caller).
pub open spec fn compare_register_value(instant: u32, now: u32) -> u16 {
    if wrapping_diff(instant, now) <= COMPARE_MAX {
        (instant % 0x1_0000) as u16
    } else {
        0
    }
}

/// Software-extended low-power timer.
pub struct ExtendedLptim<TIM> {
    timer: TIM,
    overflow: u16,
}

impl<TIM> ExtendedLptim<TIM> {
    /// Number of counter overflows handled so far.
    pub closed spec fn overflows(self) -> u16 {
        self.overflow
    }

    /// Ticks at a counter value of `counter`, with `overflow_pending` telling
    /// whether an overflow has happened that `on_interrupt` has not yet counted.
    pub open spec fn ticks_at(self, counter: u16, overflow_pending: bool) -> nat {
        ((self.overflows() + if overflow_pending {
            1nat
        } else {
            0nat
        }) * 0x1_0000 + counter) as nat
    }

    /// Takes ownership of the timer, with no overflow counted yet.
    pub fn init(timer: TIM) -> (r: Self)
        ensures
            r.overflows() == 0,
    {
        ExtendedLptim { timer, overflow: 0 }
    }

    /// The timer peripheral.
    pub fn timer(&self) -> &TIM {
        &self.timer
    }

    /// The current time in ticks, given the counter register and the overflow flag.
    pub fn now(&self, counter: u16, overflow_pending: bool) -> (r: u32)
        requires
            overflow_pending ==> self.overflows() < u16::MAX,
        ensures
            r == self.ticks_at(counter, overflow_pending),
    {
        let overflow: u32 = if overflow_pending {
            self.overflow as u32 + 1
        } else {
            self.overflow as u32
        };
        overflow * 0x1_0000 + counter as u32
    }

    /// Handles the timer interrupt: counts a pending overflow. Returns whether
    /// the overflow flag has to be cleared.
    pub fn on_interrupt(&mut self, overflow_pending: bool) -> (clear_flag: bool)
        requires
            overflow_pending ==> old(self).overflows() < u16::MAX,
        ensures
            clear_flag == overflow_pending,
            final(self).overflows() == old(self).overflows() + if overflow_pending {
                1int
            } else {
                0int
            },
    {
        if overflow_pending {
            self.overflow = self.overflow + 1;
        }
        overflow_pending
    }

    /// The value to write to the compare register for a deadline at
    /// `instant` ticks, given the counter register and the overflow flag.
    pub fn set_compare(&self, counter: u16, overflow_pending: bool, instant: u32) -> (r: u16)
        requires
            overflow_pending ==> self.overflows() < u16::MAX,
        ensures
            r == compare_register_value(instant, self.ticks_at(counter, overflow_pending) as u32),
    {
        let now = self.now(counter, overflow_pending);
        match ticks_since(instant, now) {
            Some(duration) => {
                if duration > COMPARE_MAX {
                    0
                } else {
                    (instant % 0x1_0000) as u16
                }
            },
            None => 0,
        }
    }
}

} // verus!
