//! A command to run, as plain values: the program, its arguments and the
//! environment variables set for it.

use vstd::prelude::*;
use crate::impls::Args;
use crate::text::{append_strings, push_string, texts};

verus! {

/// A command that has not been started.
#[derive(Clone, Debug, PartialEq, Eq)]
pub struct CommandLine {
    /// The program to run.
    pub program: String,
    /// Its arguments, in order.
    pub args: Vec<String>,
    /// The environment variables set for it: name and value, in the order in
    /// which they were set.
    pub envs: Vec<(String, String)>,
}

/// The field values of a `CommandLine`.
pub struct CommandLineView {
    pub program: Seq<char>,
    pub args: Seq<Seq<char>>,
    pub envs: Seq<(Seq<char>, Seq<char>)>,
}

/// The texts of a list of pairs of strings, in order.
pub open spec fn pair_texts(v: Seq<(String, String)>) -> Seq<(Seq<char>, Seq<char>)> {
    Seq::new(v.len(), |i: int| (v[i].0@, v[i].1@))
}

impl View for CommandLine {
    type V = CommandLineView;

    open spec fn view(&self) -> CommandLineView {
        CommandLineView {
            program: self.program@,
            args: texts(self.args@),
            envs: pair_texts(self.envs@),
        }
    }
}

impl CommandLineView {
    /// The command with one more argument.
    pub open spec fn arg(self, arg: Seq<char>) -> CommandLineView {
        CommandLineView { args: self.args.push(arg), ..self }
    }

    /// The command with more arguments.
    pub open spec fn args(self, args: Seq<Seq<char>>) -> CommandLineView {
        CommandLineView { args: self.args + args, ..self }
    }

    /// The command with one more environment variable.
    pub open spec fn env(self, name: Seq<char>, value: Seq<char>) -> CommandLineView {
        CommandLineView { envs: self.envs.push((name, value)), ..self }
    }
}

impl CommandLine {
    /// The command that runs `program` without arguments.
    pub fn new(program: String) -> (r: Self)
        ensures
            r@ == (CommandLineView {
                program: program@,
                args: Seq::empty(),
                envs: Seq::empty(),
            }),
    {
        let r = CommandLine { program, args: Vec::new(), envs: Vec::new() };
        assert(texts(r.args@) =~= Seq::empty());
        assert(pair_texts(r.envs@) =~= Seq::empty());
        r
    }

    /// Adds one argument.
    pub fn arg(&mut self, arg: String)
        ensures
            final(self)@ == old(self)@.arg(arg@),
    {
        push_string(&mut self.args, arg);
    }

    /// Adds arguments.
    pub fn args(&mut self, args: Vec<String>)
        ensures
            final(self)@ == old(self)@.args(texts(args@)),
    {
        append_strings(&mut self.args, args);
    }

    /// Sets an environment variable.
    pub fn env(&mut self, name: String, value: String)
        ensures
            final(self)@ == old(self)@.env(name@, value@),
    {
        let ghost pair = (name@, value@);
        self.envs.push((name, value));
        assert(pair_texts(self.envs@) =~= pair_texts(old(self).envs@).push(pair));
    }
}

/// Something that can add its arguments to a command.
pub trait ToCmd {
    /// The arguments that are added.
    spec fn cmd_args(&self) -> Seq<Seq<char>>;

    fn add_args(&self, cmd: &mut CommandLine)
        ensures
            final(cmd)@ == old(cmd)@.args(self.cmd_args()),
    ;
}

impl<T: Args> ToCmd for T {
    open spec fn cmd_args(&self) -> Seq<Seq<char>> {
        T::args(self@)
    }

    fn add_args(&self, cmd: &mut CommandLine) {
        cmd.args(self.to_args());
    }
}

} // verus!
