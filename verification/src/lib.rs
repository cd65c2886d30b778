//! Turns one set of user options into the exact command line of an external
//! media engine, and decides how an invocation of that engine proceeds.
//!
//! * [`options`]: the options model and calibration, which settles the engine.
//! * [`translate`]: the argument grammar of each engine and the translator.
//! * [`output_name`]: the default output file name.
//! * [`executor`]: the plan, the dry-run report and the relay of the engine's
//!   diagnostic stream, as directives for a host that does the actual I/O.
//! * [`decimal`], [`text`]: rendering of numbers and joining of strings.
//! * [`chrono`], [`duration`]: clock readings and running times.

pub mod chrono;
pub mod decimal;
pub mod duration;
pub mod executor;
pub mod options;
pub mod output_name;
pub mod text;
pub mod translate;

pub use options::{Commands, Opts};
