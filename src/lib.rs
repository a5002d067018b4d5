//! Instrumented process-execution core: the error taxonomy, the description of a
//! child to spawn, the table that routes reaped child events to their waiters,
//! the decisions of the reaper and of `finish`, and the instruction-count
//! report of the instrumentation runner.
pub mod dynamorio;
pub mod errors;
pub mod finish;
pub mod process;
pub mod report;
pub mod solver;
pub mod waiter;
