//! One day's log record, decoded from a 16-word slot of the historical
//! log region, including the device's idiosyncratic packing of the two
//! 24-bit counters across word boundaries.

use vstd::prelude::*;

verus! {

/// The hourmeter value a slot reports when it is unused (all ones within
/// the 24-bit range); all-zero is the other sentinel.
pub const HOURMETER_SENTINEL_ONES: u32 = 0xFFFFFF;

/// The 32-bit value with its four bytes in reverse order.
pub open spec fn spec_swap_bytes_u32(v: u32) -> u32 {
    ((v & 0xFF) << 24) | (((v >> 8) & 0xFF) << 16) | (((v >> 16) & 0xFF) << 8) | ((v >> 24) & 0xFF)
}

/// The run-hour counter packed into a slot's words 0 and 1: the two words
/// joined big end first, the least-significant byte cleared, and the four
/// bytes of the result reversed.
pub open spec fn spec_hourmeter(w0: u16, w1: u16) -> u32 {
    spec_swap_bytes_u32((((w0 as u32) << 16) | (w1 as u32)) & 0xFFFFFF00)
}

/// The daily alarm field packed into a slot's words 1 and 2: the two words
/// joined big end first, the most-significant byte cleared, and the four
/// bytes of the result reversed.
pub open spec fn spec_alarm_daily(w1: u16, w2: u16) -> u32 {
    spec_swap_bytes_u32((((w1 as u32) << 16) | (w2 as u32)) & 0x00FFFFFF)
}

/// One decoded log day. The two counters are 24-bit values; the remaining
/// fields are plain unsigned register words with no byte-order transform
/// (`vb_*` and `va_max_daily` at 100.0 full scale, `ah*_daily` in tenths
/// of an amp-hour).
#[derive(Clone, Copy, Debug, PartialEq, Eq, Structural)]
pub struct LoggedResponseDay {
    /// Monotonically increasing run-hour counter (24 bits).
    pub hourmeter: u32,
    /// Daily alarm/flag field (24 bits, carried in byte positions 1..=3).
    pub alarm_daily: u32,
    /// Minimum battery voltage for the day (word 3).
    pub vb_min_daily: u16,
    /// Maximum battery voltage for the day (word 4).
    pub vb_max_daily: u16,
    /// Daily charge amp-hours, in tenths (word 5).
    pub ahc_daily: u16,
    /// Daily load amp-hours, in tenths (word 6).
    pub ahl_daily: u16,
    /// Maximum array voltage for the day (word 9).
    pub va_max_daily: u16,
}

/// The record a 16-word slot decodes to.
pub open spec fn spec_day(slot: Seq<u16>) -> LoggedResponseDay {
    LoggedResponseDay {
        hourmeter: spec_hourmeter(slot[0], slot[1]),
        alarm_daily: spec_alarm_daily(slot[1], slot[2]),
        vb_min_daily: slot[3],
        vb_max_daily: slot[4],
        ahc_daily: slot[5],
        ahl_daily: slot[6],
        va_max_daily: slot[9],
    }
}

/// Whether a decoded record marks an unused slot: an all-zero or all-ones
/// hourmeter.
pub open spec fn spec_is_sentinel(day: LoggedResponseDay) -> bool {
    day.hourmeter == 0 || day.hourmeter == HOURMETER_SENTINEL_ONES
}

/// Reverses the byte order of a 32-bit value; a data-format transform
/// defined independently of the host architecture.
fn swap_bytes_u32(v: u32) -> (r: u32)
    ensures
        r == spec_swap_bytes_u32(v),
{
    ((v & 0xFF) << 24u32) | (((v >> 8u32) & 0xFF) << 16u32) | (((v >> 16u32) & 0xFF) << 8u32) | (
    (v >> 24u32) & 0xFF)
}

impl LoggedResponseDay {
    /// Decodes one 16-word slot presented as a slice.
    pub(crate) fn from_slot(slot: &[u16]) -> (r: LoggedResponseDay)
        requires
            slot@.len() == 16,
        ensures
            r == spec_day(slot@),
            r.hourmeter <= HOURMETER_SENTINEL_ONES,
    {
        let joined01: u32 = (((slot[0] as u32) << 16u32) | (slot[1] as u32)) & 0xFFFFFF00;
        let joined12: u32 = (((slot[1] as u32) << 16u32) | (slot[2] as u32)) & 0x00FFFFFF;
        let hourmeter = swap_bytes_u32(joined01);
        let alarm_daily = swap_bytes_u32(joined12);
        proof {
            let src: u32 = ((slot@[0] as u32) << 16u32) | (slot@[1] as u32);
            assert(joined01 == src & 0xFFFFFF00u32);
            assert(joined01 & 0xFFu32 == 0u32) by (bit_vector)
                requires
                    joined01 == src & 0xFFFFFF00u32,
            ;
            assert(spec_swap_bytes_u32(joined01) <= 0xFFFFFFu32) by (bit_vector)
                requires
                    joined01 & 0xFFu32 == 0u32,
            ;
        }
        LoggedResponseDay {
            hourmeter,
            alarm_daily,
            vb_min_daily: slot[3],
            vb_max_daily: slot[4],
            ahc_daily: slot[5],
            ahl_daily: slot[6],
            va_max_daily: slot[9],
        }
    }

    /// Decodes one day's record from its 16 raw slot words. Words 7, 8 and
    /// 10 through 15 are reserved and ignored. Never fails: a non-sentinel
    /// slot decodes to whatever the device reported.
    pub fn from_raw_bits(raw_data: [u16; 16]) -> (r: LoggedResponseDay)
        ensures
            r == spec_day(raw_data@),
            r.hourmeter <= HOURMETER_SENTINEL_ONES,
    {
        let slot = raw_data.as_slice();
        LoggedResponseDay::from_slot(slot)
    }

    /// Whether this record marks an unused slot (hourmeter all-zero or
    /// all-ones); such records are excluded from the log collection.
    pub fn is_sentinel(&self) -> (r: bool)
        ensures
            r == spec_is_sentinel(*self),
    {
        self.hourmeter == 0 || self.hourmeter == HOURMETER_SENTINEL_ONES
    }
}

} // verus!
