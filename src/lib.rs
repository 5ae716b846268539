//! Decision core of a supervisor that wraps a child program, relays its own
//! input to the child line by line, and on a termination signal writes a
//! graceful-shutdown sequence to the child's input as the last bytes it ever
//! receives.

pub mod relay;
pub mod shutdown;
pub mod supervisor;
pub mod runs;
