use vstd::prelude::*;

use crate::process::Process;

verus! {

/// The value bound to `key` by the latest binding of it, if any.
pub open spec fn lookup(entries: Seq<(Seq<char>, Seq<char>)>, key: Seq<char>) -> Option<Seq<char>>
    decreases entries.len(),
{
    if entries.len() == 0 {
        None
    } else if entries.last().0 == key {
        Some(entries.last().1)
    } else {
        lookup(entries.drop_last(), key)
    }
}

/// String-to-string configuration, such as the root of the instrumentation
/// toolchain under `dynpath`. A later binding of a key overrides earlier ones.
pub struct Vars {
    entries: Vec<(String, String)>,
}

impl View for Vars {
    type V = Seq<(Seq<char>, Seq<char>)>;

    /// The bindings, oldest first.
    closed spec fn view(&self) -> Seq<(Seq<char>, Seq<char>)> {
        self.entries@.map_values(|e: (String, String)| (e.0@, e.1@))
    }
}

impl Vars {
    /// A configuration with no bindings.
    pub fn new() -> (r: Vars)
        ensures
            r@ == Seq::<(Seq<char>, Seq<char>)>::empty(),
    {
        let r = Vars { entries: Vec::new() };
        assert(r@ =~= Seq::<(Seq<char>, Seq<char>)>::empty());
        r
    }

    /// Binds `key` to `value`.
    pub fn insert(&mut self, key: &str, value: &str)
        ensures
            final(self)@ == old(self)@.push((key@, value@)),
    {
        self.entries.push((key.to_owned(), value.to_owned()));
        assert(self@ =~= old(self)@.push((key@, value@)));
    }

    /// The value bound to `key`.
    pub fn get(&self, key: &str) -> (r: Option<&String>)
        ensures
            match r {
                Some(v) => lookup(self@, key@) == Some(v@),
                None => lookup(self@, key@) is None,
            },
    {
        let wanted = key.to_owned();
        let mut i: usize = self.entries.len();
        assert(self@.subrange(0, i as int) =~= self@);
        while i > 0
            invariant
                i <= self@.len(),
                self@.len() == self.entries@.len(),
                wanted@ == key@,
                lookup(self@, key@) == lookup(self@.subrange(0, i as int), key@),
            decreases i,
        {
            let ghost before = self@.subrange(0, i as int);
            assert(before.drop_last() =~= self@.subrange(0, i - 1));
            i -= 1;
            if self.entries[i].0 == wanted {
                return Some(&self.entries[i].1);
            }
        }
        None
    }
}

/// The candidate input of one run: the target's arguments and its stdin.
pub struct Input {
    pub argv: Vec<Vec<u8>>,
    pub stdin: Vec<u8>,
}

/// What an instruction counter needs for one run: the target's path, the
/// candidate input, and the configuration.
pub struct InstCountData {
    pub path: String,
    pub inp: Input,
    pub vars: Vars,
}

/// The run that the performance-counter solver measures: the target itself,
/// traced so that it stops at `exec` before the counter is attached, with the
/// candidate's arguments and stdin.
pub fn traced_command(data: &InstCountData) -> (r: Process)
    ensures
        r.path_spec() == data.path@,
        r.argv_spec() == data.inp.argv@.map_values(|a: Vec<u8>| a@),
        r.stdin_spec() == data.inp.stdin@,
        r.ptrace_spec(),
{
    let mut p = Process::new(data.path.as_str());
    p.args(data.inp.argv.as_slice());
    p.input(vstd::slice::slice_to_vec(data.inp.stdin.as_slice()));
    p.with_ptrace(true);
    assert(p.argv_spec() =~= data.inp.argv@.map_values(|a: Vec<u8>| a@));
    p
}

} // verus!
