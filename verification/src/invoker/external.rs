//! A command to hand the process over to: a program, its arguments, and the
//! environment variables that are set for it.

use vstd::prelude::*;
use crate::model::Model;
use crate::paths::{join, path_join};
use crate::table::Keyed;
use crate::text::owned;
use crate::world::{
    extends, lemma_known_stays, settled, status_of, ObsModel, Observations, Query, QueryModel, Step,
    StepModel,
};

verus! {

/// A command line with the variables to set for it. Variables that are not
/// set here are passed on as the process has them.
#[derive(Debug, Clone)]
pub struct CommandLine {
    pub program: String,
    pub args: Vec<String>,
    pub envs: Keyed<String>,
}

pub ghost struct CommandLineModel {
    pub program: Seq<char>,
    pub args: Seq<Seq<char>>,
    pub envs: Map<Seq<char>, Seq<char>>,
}

impl CommandLineModel {
    /// The command that runs `program` without arguments.
    pub open spec fn of(program: Seq<char>) -> CommandLineModel {
        CommandLineModel { program, args: Seq::empty(), envs: Map::empty() }
    }

    /// The command with one more argument at its end.
    pub open spec fn with_arg(self, arg: Seq<char>) -> CommandLineModel {
        CommandLineModel { args: self.args.push(arg), ..self }
    }

    /// The command with more arguments at its end.
    pub open spec fn with_args(self, args: Seq<Seq<char>>) -> CommandLineModel {
        CommandLineModel { args: self.args + args, ..self }
    }

    /// The command with the variable `name` set to `value`.
    pub open spec fn with_env(self, name: Seq<char>, value: Seq<char>) -> CommandLineModel {
        CommandLineModel { envs: self.envs.insert(name, value), ..self }
    }

    /// The program followed by its arguments.
    pub open spec fn argv(self) -> Seq<Seq<char>> {
        seq![self.program] + self.args
    }
}

impl Model for CommandLine {
    type M = CommandLineModel;

    open spec fn model(&self) -> CommandLineModel {
        CommandLineModel {
            program: self.program@,
            args: self.args.model(),
            envs: self.envs.model(),
        }
    }
}

impl CommandLine {
    /// The command that runs `program` without arguments.
    pub fn new(program: String) -> (command: Self)
        ensures
            command.model() == CommandLineModel::of(program@),
    {
        let command = CommandLine { program, args: Vec::new(), envs: Keyed::new() };
        assert(command.args.model() =~= Seq::<Seq<char>>::empty());
        assert(command.envs.model() =~= Map::<Seq<char>, Seq<char>>::empty());
        command
    }

    /// Adds an argument at the end.
    pub fn arg(&mut self, arg: String)
        ensures
            final(self).model() == old(self).model().with_arg(arg@),
    {
        self.args.push(arg);
        assert(self.args.model() =~= old(self).args.model().push(arg@));
    }

    /// Adds arguments at the end.
    pub fn args(&mut self, args: &Vec<String>)
        ensures
            final(self).model() == old(self).model().with_args(args.model()),
    {
        let mut i: usize = 0;
        while i < args.len()
            invariant
                i <= args.len(),
                args.len() == args.model().len(),
                self.model() == old(self).model().with_args(args.model().take(i as int)),
            decreases args.len() - i,
        {
            let ghost before = self.args.model();
            self.args.push(args[i].clone());
            assert(self.args.model() =~= before.push(args.model()[i as int]));
            assert(self.args.model() =~= old(self).args.model() + args.model().take(i + 1));
            i = i + 1;
        }
        assert(args.model().take(args.len() as int) =~= args.model());
    }

    /// Sets the variable `name` to `value`.
    pub fn env(&mut self, name: &str, value: String)
        ensures
            final(self).model() == old(self).model().with_env(name@, value@),
    {
        self.envs.put(owned(name), value);
        assert(self.envs.model() =~= old(self).envs.model().insert(name@, value@));
    }

    /// The program followed by its arguments.
    pub fn argv(&self) -> (argv: Vec<String>)
        ensures
            argv.model() == self.model().argv(),
    {
        let mut argv: Vec<String> = Vec::new();
        argv.push(self.program.clone());
        assert(argv.model() =~= seq![self.program@]);
        let mut i: usize = 0;
        while i < self.args.len()
            invariant
                i <= self.args.len(),
                self.args.len() == self.args.model().len(),
                argv.model() == seq![self.program@] + self.args.model().take(i as int),
            decreases self.args.len() - i,
        {
            let ghost before = argv.model();
            argv.push(self.args[i].clone());
            assert(argv.model() =~= before.push(self.args.model()[i as int]));
            assert(argv.model() =~= seq![self.program@] + self.args.model().take(i + 1));
            i = i + 1;
        }
        assert(self.args.model().take(self.args.len() as int) =~= self.args.model());
        argv
    }
}

/// The executable `executable` in `directory`, as a command, where there is
/// one. Where the path has a canonical form, that form is the program and has
/// to be a file or a link; otherwise the path itself has to be.
pub open spec fn command_at(obs: ObsModel, directory: Seq<char>, executable: Seq<char>) -> StepModel<
    Option<CommandLineModel>,
> {
    let candidate = path_join(directory, executable);
    match status_of(obs, candidate) {
        None => StepModel::Need(QueryModel::Stat(candidate)),
        Some(status) => match status.canonical {
            Ok(canonical) => match status_of(obs, canonical) {
                None => StepModel::Need(QueryModel::Stat(canonical)),
                Some(target) => if target.is_file || target.is_symlink {
                    StepModel::Done(Some(CommandLineModel::of(canonical)))
                } else {
                    StepModel::Done(None)
                },
            },
            Err(_) => if status.is_file || status.is_symlink {
                StepModel::Done(Some(CommandLineModel::of(candidate)))
            } else {
                StepModel::Done(None)
            },
        },
    }
}

/// Hands the process over to another program.
#[derive(Debug, Clone)]
pub struct ExternalInvoker {
    command: CommandLine,
}

impl Model for ExternalInvoker {
    type M = CommandLineModel;

    closed spec fn model(&self) -> CommandLineModel {
        self.command.model()
    }
}

impl ExternalInvoker {
    /// The invoker of the executable `executable` in `directory`, if it is there.
    pub fn new_at(obs: &Observations, directory: &str, executable: &str) -> (invoker: Step<
        Option<Self>,
    >)
        ensures
            invoker.model() == command_at(obs.model(), directory@, executable@),
    {
        let candidate = join(directory, executable);
        let status = match obs.stat(candidate.as_str()) {
            None => {
                return Step::Need(Query::Stat(candidate));
            },
            Some(status) => status,
        };
        match &status.canonical {
            Ok(canonical) => {
                let target = match obs.stat(canonical.as_str()) {
                    None => {
                        return Step::Need(Query::Stat(canonical.clone()));
                    },
                    Some(target) => target,
                };
                if target.is_file || target.is_symlink {
                    Step::Done(Some(Self::from_executable(canonical.as_str())))
                } else {
                    Step::Done(None)
                }
            },
            Err(_) => {
                if status.is_file || status.is_symlink {
                    Step::Done(Some(Self::from_executable(candidate.as_str())))
                } else {
                    Step::Done(None)
                }
            },
        }
    }

    /// The invoker of the program at `executable`.
    pub fn from_executable(executable: &str) -> (invoker: Self)
        ensures
            invoker.model() == CommandLineModel::of(executable@),
    {
        Self::from_command(CommandLine::new(owned(executable)))
    }

    /// The invoker of a command that is already made up.
    pub fn from_command(partial_command: CommandLine) -> (invoker: Self)
        ensures
            invoker.model() == partial_command.model(),
    {
        ExternalInvoker { command: partial_command }
    }

    /// The command, to be changed in place.
    pub fn configure_command(&mut self) -> (command: &mut CommandLine)
        ensures
            command.model() == old(self).model(),
            final(self).model() == final(command).model(),
    {
        &mut self.command
    }

    /// The command that the process is handed over to.
    pub fn into_command(self) -> (command: CommandLine)
        ensures
            command.model() == self.model(),
    {
        self.command
    }
}

/// The search for an executable in a directory is settled.
pub proof fn lemma_command_at_settled(
    earlier: ObsModel,
    later: ObsModel,
    directory: Seq<char>,
    executable: Seq<char>,
)
    requires
        extends(later, earlier),
    ensures
        settled(
            command_at(earlier, directory, executable),
            command_at(later, directory, executable),
            earlier,
        ),
{
    lemma_known_stays(earlier, later);
}

} // verus!
