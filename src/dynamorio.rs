use vstd::prelude::*;
use vstd::string::StringExecFns;
use vstd::utf8::encode_utf8;

use crate::errors::{Runner, SolverError};
use crate::process::Process;
use crate::solver::{InstCountData, lookup};

verus! {

/// How long one instrumented run may take, in nanoseconds.
pub const RUN_TIMEOUT_NS: u64 = 5_000_000_000;

/// The instruction counter that runs the target under the DynamoRIO runner with
/// its instruction-counting client, and reads the count from the runner's report.
#[derive(Debug, Clone, Copy)]
pub struct DynamorioSolver;

/// The runner under the toolchain root `dynpath`.
pub open spec fn drrun_path(dynpath: Seq<char>) -> Seq<char> {
    dynpath + "/bin64/drrun"@
}

/// The runner's arguments: the counting client, then the target and its arguments.
pub open spec fn drrun_argv(dynpath: Seq<char>, target: Seq<char>, args: Seq<Seq<u8>>) -> Seq<
    Seq<u8>,
> {
    seq![
        encode_utf8("-c"@),
        encode_utf8(dynpath + "/api/bin/libinscount.so"@),
        encode_utf8("--"@),
        encode_utf8(target),
    ] + args
}

impl DynamorioSolver {
    /// The run that counts the instructions of `data`: the runner found under
    /// `dynpath`, untraced, fed the candidate's stdin. Without `dynpath` the
    /// configuration is incomplete.
    pub fn command(&self, data: &InstCountData) -> (r: Result<Process, SolverError>)
        ensures
            lookup(data.vars@, "dynpath"@) is None <==> r is Err,
            r is Err ==> r->Err_0.runner == Runner::MissingArgs,
            r is Ok ==> {
                let dynpath = lookup(data.vars@, "dynpath"@)->Some_0;
                let p = r->Ok_0;
                &&& p.path_spec() == drrun_path(dynpath)
                &&& p.argv_spec() == drrun_argv(
                    dynpath,
                    data.path@,
                    data.inp.argv@.map_values(|a: Vec<u8>| a@),
                )
                &&& p.stdin_spec() == data.inp.stdin@
                &&& !p.ptrace_spec()
            },
    {
        let dynpath = match data.vars.get("dynpath") {
            Some(d) => d,
            None => {
                return Err(SolverError::new(Runner::MissingArgs, "missing configuration: dynpath"));
            },
        };
        let drrun = dynpath.clone().concat("/bin64/drrun");
        let client = dynpath.clone().concat("/api/bin/libinscount.so");
        let mut p = Process::new(drrun.as_str());
        p.arg("-c".as_bytes());
        p.arg(client.as_str().as_bytes());
        p.arg("--".as_bytes());
        p.arg(data.path.as_str().as_bytes());
        p.args(data.inp.argv.as_slice());
        p.input(vstd::slice::slice_to_vec(data.inp.stdin.as_slice()));
        assert(p.argv_spec() =~= drrun_argv(
            dynpath@,
            data.path@,
            data.inp.argv@.map_values(|a: Vec<u8>| a@),
        ));
        Ok(p)
    }
}

} // verus!
