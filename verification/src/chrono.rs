//! A wall-clock reading split into hours, minutes and seconds.

use vstd::prelude::*;

verus! {

/// A duration or time of day held as three separate counters.
///
/// The counters are independent: no carry is applied, so `minutes` and
/// `seconds` may exceed 59.
#[derive(Debug)]
pub struct TimeFormatter {
    pub hours: usize,
    pub minutes: usize,
    pub seconds: usize,
}

impl TimeFormatter {
    /// Builds a reading from its three counters, each taken as given.
    pub fn from_hhmmss(hh: usize, mm: usize, ss: usize) -> (tf: TimeFormatter)
        ensures
            tf.hours == hh,
            tf.minutes == mm,
            tf.seconds == ss,
    {
        TimeFormatter { hours: hh, minutes: mm, seconds: ss }
    }
}

} // verus!
