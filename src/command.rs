use crate::log::{command_line, command_log_line};
use vstd::prelude::*;
use vstd::string::*;

verus! {

/// A command not yet run: the program and its arguments, in order.
pub struct CommandLine {
    program: String,
    args: Vec<String>,
}

impl View for CommandLine {
    type V = (Seq<char>, Seq<Seq<char>>);

    closed spec fn view(&self) -> Self::V {
        (self.program@, self.args@.map_values(|a: String| a@))
    }
}

impl CommandLine {
    /// A command that runs `program` with no arguments.
    pub fn new(program: &str) -> (r: CommandLine)
        ensures
            r@.0 == program@,
            r@.1 == Seq::<Seq<char>>::empty(),
    {
        let r = CommandLine { program: String::from_str(program), args: Vec::new() };
        assert(r@.1 =~= Seq::<Seq<char>>::empty());
        r
    }

    /// The program that the command runs.
    pub fn get_program(&self) -> (r: &str)
        ensures
            r@ == self@.0,
    {
        self.program.as_str()
    }

    /// The arguments passed to the program, in order.
    pub fn get_args(&self) -> (r: &Vec<String>)
        ensures
            r@.map_values(|a: String| a@) == self@.1,
    {
        &self.args
    }

    /// Adds `arg` after the arguments already given.
    pub fn arg(&mut self, arg: &str)
        ensures
            final(self)@.0 == old(self)@.0,
            final(self)@.1 == old(self)@.1.push(arg@),
    {
        self.args.push(String::from_str(arg));
        assert(self@.1 =~= old(self)@.1.push(arg@));
    }

    /// Adds each of `args`, in order, after the arguments already given.
    pub fn args(&mut self, args: &Vec<String>)
        ensures
            final(self)@.0 == old(self)@.0,
            final(self)@.1 == old(self)@.1 + args@.map_values(|a: String| a@),
    {
        let ghost added = args@.map_values(|a: String| a@);
        let mut i: usize = 0;
        while i < args.len()
            invariant
                i <= args.len(),
                added == args@.map_values(|a: String| a@),
                self@.0 == old(self)@.0,
                self@.1 == old(self)@.1 + added.take(i as int),
            decreases args.len() - i,
        {
            let ghost before = self@.1;
            self.args.push(args[i].clone());
            assert(self@.1 =~= before.push(added[i as int]));
            assert(added.take(i + 1) =~= added.take(i as int).push(added[i as int]));
            i = i + 1;
        }
        assert(added.take(args.len() as int) =~= added);
    }

    /// Adds `arg` when `pred` holds; otherwise leaves the command as it is.
    pub fn arg_if(&mut self, pred: bool, arg: &str)
        ensures
            final(self)@.0 == old(self)@.0,
            pred ==> final(self)@.1 == old(self)@.1.push(arg@),
            !pred ==> final(self)@ == old(self)@,
    {
        if pred {
            self.arg(arg);
        }
    }

    /// Adds each of `args` when `pred` holds; otherwise leaves the command as
    /// it is.
    pub fn args_if(&mut self, pred: bool, args: &Vec<String>)
        ensures
            final(self)@.0 == old(self)@.0,
            pred ==> final(self)@.1 == old(self)@.1 + args@.map_values(|a: String| a@),
            !pred ==> final(self)@ == old(self)@,
    {
        if pred {
            self.args(args);
        }
    }

    /// The line logged before the command runs: `% <program> <args...>`.
    pub fn log_line(&self) -> (r: String)
        ensures
            r@ == command_line(self@.0, self@.1),
    {
        command_log_line(self.program.as_str(), &self.args)
    }
}

} // verus!
