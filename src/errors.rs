use vstd::prelude::*;

verus! {

/// The kind of failure reported by the process core.
#[derive(Debug, Clone, Copy, PartialEq, Eq, Structural)]
pub enum Runner {
    /// The handle is not in a state that allows the operation.
    RunnerError,
    /// A required configuration variable is absent.
    MissingArgs,
    /// A pipe, file or system call failed, or output could not be understood.
    IoError,
    /// A call into the OS-binding layer failed.
    NixError,
    /// The deadline passed before the child exited.
    Timeout,
    /// A programming error, such as claiming a child twice.
    Unknown,
}

/// An error of the process core: its kind and a message.
#[derive(Debug)]
pub struct SolverError {
    pub runner: Runner,
    pub message: String,
}

impl SolverError {
    pub fn new(runner: Runner, message: &str) -> (r: SolverError)
        ensures
            r.runner == runner,
            r.message@ == message@,
    {
        SolverError { runner, message: message.to_owned() }
    }

    /// The kind of this error.
    pub fn runner(&self) -> (r: Runner)
        ensures
            r == self.runner,
    {
        self.runner
    }

    /// The message carried by this error.
    pub fn description(&self) -> (r: &str)
        ensures
            r@ == self.message@,
    {
        self.message.as_str()
    }
}

} // verus!
