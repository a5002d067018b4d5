use vstd::prelude::*;

verus! {

/// The description of a child to spawn: the executable, its arguments, the bytes
/// written to its stdin, and whether it is traced by its parent.
///
/// A description is consumed by the spawn that starts it, so each is run once.
#[derive(Debug)]
pub struct Process {
    path: String,
    argv: Vec<Vec<u8>>,
    stdin: Vec<u8>,
    ptrace: bool,
}

impl Process {
    /// The executable's path.
    pub closed spec fn path_spec(&self) -> Seq<char> {
        self.path@
    }

    /// The arguments, in order, each as bytes.
    pub closed spec fn argv_spec(&self) -> Seq<Seq<u8>> {
        self.argv@.map_values(|a: Vec<u8>| a@)
    }

    /// The bytes delivered to the child's stdin.
    pub closed spec fn stdin_spec(&self) -> Seq<u8> {
        self.stdin@
    }

    /// Whether the child is traced.
    pub closed spec fn ptrace_spec(&self) -> bool {
        self.ptrace
    }

    /// A description of `path` with no arguments, empty stdin, and no tracing.
    pub fn new(path: &str) -> (r: Process)
        ensures
            r.path_spec() == path@,
            r.argv_spec() == Seq::<Seq<u8>>::empty(),
            r.stdin_spec() == Seq::<u8>::empty(),
            !r.ptrace_spec(),
    {
        let r = Process { path: path.to_owned(), argv: Vec::new(), stdin: Vec::new(), ptrace: false };
        assert(r.argv_spec() =~= Seq::<Seq<u8>>::empty());
        r
    }

    /// Replaces the stdin payload.
    pub fn input(&mut self, stdin: Vec<u8>)
        ensures
            final(self).stdin_spec() == stdin@,
            final(self).path_spec() == old(self).path_spec(),
            final(self).argv_spec() == old(self).argv_spec(),
            final(self).ptrace_spec() == old(self).ptrace_spec(),
    {
        self.stdin = stdin;
    }

    /// Appends each of `args`, in order.
    pub fn args(&mut self, args: &[Vec<u8>])
        ensures
            final(self).argv_spec() == old(self).argv_spec() + args@.map_values(|a: Vec<u8>| a@),
            final(self).path_spec() == old(self).path_spec(),
            final(self).stdin_spec() == old(self).stdin_spec(),
            final(self).ptrace_spec() == old(self).ptrace_spec(),
    {
        let ghost start = self.argv_spec();
        let mut i: usize = 0;
        while i < args.len()
            invariant
                i <= args@.len(),
                self.argv_spec() == start + args@.subrange(0, i as int).map_values(
                    |a: Vec<u8>| a@,
                ),
                self.path_spec() == old(self).path_spec(),
                self.stdin_spec() == old(self).stdin_spec(),
                self.ptrace_spec() == old(self).ptrace_spec(),
            decreases args@.len() - i,
        {
            self.arg(args[i].as_slice());
            i += 1;
            assert(args@.subrange(0, i as int).map_values(|a: Vec<u8>| a@) =~= args@.subrange(
                0,
                i - 1,
            ).map_values(|a: Vec<u8>| a@).push(args@[i - 1]@));
        }
        assert(args@.subrange(0, i as int) =~= args@);
    }

    /// Appends one argument.
    pub fn arg(&mut self, arg: &[u8])
        ensures
            final(self).argv_spec() == old(self).argv_spec().push(arg@),
            final(self).path_spec() == old(self).path_spec(),
            final(self).stdin_spec() == old(self).stdin_spec(),
            final(self).ptrace_spec() == old(self).ptrace_spec(),
    {
        self.argv.push(vstd::slice::slice_to_vec(arg));
        assert(self.argv_spec() =~= old(self).argv_spec().push(arg@));
    }

    /// Sets whether the child is traced.
    pub fn with_ptrace(&mut self, ptrace: bool)
        ensures
            final(self).ptrace_spec() == ptrace,
            final(self).path_spec() == old(self).path_spec(),
            final(self).argv_spec() == old(self).argv_spec(),
            final(self).stdin_spec() == old(self).stdin_spec(),
    {
        self.ptrace = ptrace;
    }

    /// The executable's path.
    pub fn path(&self) -> (r: &str)
        ensures
            r@ == self.path_spec(),
    {
        self.path.as_str()
    }

    /// The arguments, in order.
    pub fn argv(&self) -> (r: &Vec<Vec<u8>>)
        ensures
            r@.map_values(|a: Vec<u8>| a@) == self.argv_spec(),
    {
        &self.argv
    }

    /// The bytes to write to the child's stdin.
    pub fn stdin(&self) -> (r: &[u8])
        ensures
            r@ == self.stdin_spec(),
    {
        self.stdin.as_slice()
    }

    /// Whether the child is traced.
    pub fn ptrace(&self) -> (r: bool)
        ensures
            r == self.ptrace_spec(),
    {
        self.ptrace
    }
}

} // verus!
