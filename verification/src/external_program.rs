//! External programs that the project asks for values.

use vstd::prelude::*;

verus! {

/// The abstract value of an external program.
pub struct ExternalProgramV {
    pub path: Seq<char>,
    pub args: Seq<Seq<char>>,
    pub mode: ExternalProgramMode,
}

/// A program, with its arguments, that is run to get a value.
pub struct ExternalProgram {
    pub path: String,
    pub args: Vec<String>,
    mode: ExternalProgramMode,
}

impl View for ExternalProgram {
    type V = ExternalProgramV;

    closed spec fn view(&self) -> ExternalProgramV {
        ExternalProgramV {
            path: self.path@,
            args: Seq::new(self.args@.len(), |i: int| self.args@[i]@),
            mode: self.mode,
        }
    }
}

#[derive(Clone, Copy, PartialEq, Eq, Structural, Debug)]
pub enum ExternalProgramMode {
    /// The program is launched once per value; the input is its last argument.
    RunOnceArg,
    /// The program is launched once per value; the input is written to its stdin.
    RunOnceStdin,
}

impl ExternalProgram {
    /// The program at `path`, without arguments.
    pub fn new(path: String, mode: ExternalProgramMode) -> (r: ExternalProgram)
        ensures
            r@ == (ExternalProgramV { path: path@, args: Seq::empty(), mode }),
    {
        let r = ExternalProgram { path, args: Vec::new(), mode };
        assert(Seq::new(r.args@.len(), |i: int| r.args@[i]@) =~= Seq::<Seq<char>>::empty());
        r
    }

    /// The same program with `arg` added after its other arguments.
    pub fn arg(self, arg: String) -> (r: ExternalProgram)
        ensures
            r@ == (ExternalProgramV { args: self@.args.push(arg@), ..self@ }),
    {
        let mut s = self;
        let ghost a = arg@;
        s.args.push(arg);
        assert(Seq::new(s.args@.len(), |i: int| s.args@[i]@) =~= Seq::new(self.args@.len(), |i: int| self.args@[i]@).push(a));
        s
    }

    /// The program's path.
    pub fn path(&self) -> (r: &String)
        ensures
            r@ == self@.path,
    {
        &self.path
    }

    /// How the program gets its input.
    pub fn get_mode(&self) -> (m: ExternalProgramMode)
        ensures
            m == self@.mode,
    {
        self.mode
    }
}

impl Clone for ExternalProgram {
    fn clone(&self) -> (r: ExternalProgram)
        ensures
            r@ == self@,
    {
        let mut o = Self::new(self.path.clone(), self.mode);
        o.args = clone_strings(&self.args);
        assert(Seq::new(o.args@.len(), |i: int| o.args@[i]@) =~= Seq::new(self.args@.len(), |i: int| self.args@[i]@));
        o
    }
}

/// A copy of each string, in order.
pub fn clone_strings(v: &Vec<String>) -> (r: Vec<String>)
    ensures
        r@ == v@,
{
    let mut r: Vec<String> = Vec::new();
    let mut i: usize = 0;
    while i < v.len()
        invariant
            i <= v.len(),
            r@ == v@.take(i as int),
        decreases v.len() - i,
    {
        r.push(v[i].clone());
        assert(v@.take(i as int).push(v@[i as int]) =~= v@.take(i + 1));
        i = i + 1;
    }
    assert(v@.take(v.len() as int) =~= v@);
    r
}

} // verus!
