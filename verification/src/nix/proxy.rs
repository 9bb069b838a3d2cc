//! The re-entry of the dispatcher from inside a derived shell.

use vstd::prelude::*;
use crate::environment::{raw_var, EnvModel, Environment, FALLBACK_VAR};
use crate::invocation::{Invocation, InvocationModel};
use crate::invoker::external::{CommandLine, CommandLineModel};
use crate::invoker::{configured, ToolInvoker};
use crate::model::Model;

verus! {

/// The command that a re-entered dispatcher hands over to: the remaining
/// arguments are the command, word for word. Where a toolchain to fall back
/// on was passed along, the command gets that toolchain's environment.
/// There is no such command without remaining arguments.
pub open spec fn proxied(invocation: InvocationModel, env: EnvModel) -> Option<CommandLineModel> {
    let args = invocation.remaining_args;
    if args.len() == 0 {
        None
    } else {
        let command = CommandLineModel::of(args[0]);
        let with_toolchain = match raw_var(env, FALLBACK_VAR@) {
            Some(dir) => configured(command, env, Some(dir)),
            None => command,
        };
        Some(with_toolchain.with_args(args.subrange(1, args.len() as int)))
    }
}

/// Makes the command that a re-entered dispatcher hands over to.
pub fn run_develop_proxy(invocation: &Invocation, env: &Environment) -> (command: Option<
    CommandLine,
>)
    ensures
        command.model() == proxied(invocation.model(), env.model()),
{
    let args = &invocation.remaining_args;
    if args.len() == 0 {
        return None;
    }
    let mut command = CommandLine::new(args[0].clone());
    if let Some(dir) = env.var_os(FALLBACK_VAR) {
        ToolInvoker::configure_command_for_toolchain(Some(dir), &mut command, env);
    }
    let mut i: usize = 1;
    while i < args.len()
        invariant
            1 <= i <= args.len(),
            args.len() == args.model().len(),
            command.model() == (match raw_var(env.model(), FALLBACK_VAR@) {
                Some(dir) => configured(
                    CommandLineModel::of(args.model()[0]),
                    env.model(),
                    Some(dir),
                ),
                None => CommandLineModel::of(args.model()[0]),
            }).with_args(args.model().subrange(1, i as int)),
        decreases args.len() - i,
    {
        let ghost before = command.model();
        command.arg(args[i].clone());
        assert(args.model().subrange(1, i as int).push(args.model()[i as int])
            =~= args.model().subrange(1, i + 1));
        assert(command.model().args =~= before.args.push(args.model()[i as int]));
        i = i + 1;
    }
    Some(command)
}

} // verus!
