//! The running time of the media that a set of options refers to.

use vstd::prelude::*;
use crate::options::Opts;

verus! {

/// A running time in whole seconds, kept with the options it belongs to.
pub struct Duration {
    pub opts: Opts,
    pub secs: usize,
}

impl From<Opts> for Duration {
    /// Wraps the options with a running time that has not been measured yet:
    /// zero seconds.
    fn from(opts: Opts) -> (d: Duration) {
        Duration { opts: opts, secs: 0 }
    }
}

impl vstd::std_specs::convert::FromSpecImpl<Opts> for Duration {
    open spec fn obeys_from_spec() -> bool {
        true
    }

    open spec fn from_spec(opts: Opts) -> Duration {
        Duration { opts: opts, secs: 0 }
    }
}

} // verus!
