//! Mounting a filesystem service in the background.
//!
//! The crate holds the decisions of a launcher that detaches a long-running
//! worker into a background process, waits until the worker is observably
//! ready, and tells the invoking process whether startup succeeded.  Every
//! function here is pure: the caller performs the system calls, awaits the
//! database, and hands the results back.
//!
//! * [`daemon`]: the daemonization controller, as a state machine.
//! * [`daemon::channel`]: the one-byte outcome protocol between the two
//!   processes.
//! * [`daemon::stdio`]: how the standard streams are pointed at the null
//!   device.
//! * [`cmd::mount`]: the mount command's plan and its readiness probe.

pub mod cmd;
pub mod daemon;
