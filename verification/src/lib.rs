//! A verified core for bridging an operating system's thread-pool timer
//! facility to a cooperative task-wakeup model.
//!
//! The library owns the pure and stateful logic of the bridge: converting
//! durations into the native 100-nanosecond tick encoding, the trampoline's
//! update of the shared timer state, and the lifecycle state machine of the
//! native timer handle, including its race-free teardown protocol. The
//! surrounding application performs the actual operating-system calls and
//! drives this state machine with their results.

pub mod convert;
pub mod state;
pub mod timer;
