//! The hand-off: the command that takes the place of this process, with the
//! environment that the tool expects.

pub mod external;

use vstd::prelude::*;
use crate::collection::BIN_DIR;
use crate::environment::{
    library_var, raw_var, EnvModel, Environment, Platform, FLAKE_PATH_VAR, HOME_VAR,
    RECURSION_VAR, SEARCH_PATH_VAR,
};
use crate::error::{Error, ErrorModel};
use crate::invocation::{Invocation, InvocationModel};
use crate::invoker::external::{
    command_at, lemma_command_at_settled, CommandLine, CommandLineModel, ExternalInvoker,
};
use crate::model::Model;
use crate::nix::flake::{NixFlake, NixFlakeModel};
use crate::number::{decimal, format_u32};
use crate::paths::{join, path_join};
use crate::text::owned;
use crate::util::{counted, prepend_paths, prepended, u32_from_env};
use crate::world::{ObsModel, Observations, Step, StepModel};

verus! {

/// The highest value that the recursion counter may take.
pub const RECURSION_CEILING: u32 = 20;

/// The directory of a toolchain that holds its libraries.
pub const LIB_DIR: &'static str = "lib";

/// The counter that a process hands on: one more than its own, and none
/// where that does not fit.
pub open spec fn next_count(count: u32) -> Option<u32> {
    if count < u32::MAX {
        Some((count + 1) as u32)
    } else {
        None
    }
}

/// Whether a process that starts with this counter has to stop at once: the
/// counter it would hand on lies above the ceiling.
pub open spec fn limit_exceeded(count: u32) -> bool {
    count + 1 > RECURSION_CEILING
}

/// The directories that are put in front of the library search path for a
/// toolchain: the toolchain's own, and on a platform with a fallback search
/// path that is unset or empty, the conventional ones after it.
pub open spec fn library_dirs(env: EnvModel, toolchain_dir: Seq<char>) -> Seq<Seq<char>> {
    let own = seq![path_join(toolchain_dir, LIB_DIR@)];
    let held = raw_var(env, library_var(env.platform));
    if env.platform == Platform::MacOs && !(held matches Some(text) && text.len() > 0) {
        let with_home = match raw_var(env, HOME_VAR@) {
            Some(home) => own.push(path_join(home, LIB_DIR@)),
            None => own,
        };
        with_home.push("/usr/local/lib"@).push("/usr/lib"@)
    } else {
        own
    }
}

/// A command with the environment of a toolchain: the library search path
/// is prefixed with the toolchain's directories, where there is a toolchain,
/// and the recursion counter is one more than that of this process, where
/// that fits. The search path for executables is left alone.
pub open spec fn configured(
    command: CommandLineModel,
    env: EnvModel,
    toolchain_dir: Option<Seq<char>>,
) -> CommandLineModel {
    let with_libraries = match toolchain_dir {
        Some(dir) => command.with_env(
            library_var(env.platform),
            prepended(raw_var(env, library_var(env.platform)), library_dirs(env, dir)),
        ),
        None => command,
    };
    match next_count(counted(env, RECURSION_VAR@)) {
        Some(next) => with_libraries.with_env(RECURSION_VAR@, decimal(next as nat)),
        None => with_libraries,
    }
}

/// A command that is ready but for the arguments of the invocation, and the
/// project description that led to it, if one did.
#[derive(Debug, Clone)]
pub struct ToolInvoker {
    inner: ExternalInvoker,
    used_flake: Option<NixFlake>,
}

pub ghost struct ToolInvokerModel {
    pub command: CommandLineModel,
    pub used_flake: Option<NixFlakeModel>,
}

impl ToolInvokerModel {
    /// The invoker of a command, with no project description.
    pub open spec fn of(command: CommandLineModel) -> ToolInvokerModel {
        ToolInvokerModel { command, used_flake: None }
    }

    /// The command that the process is handed over to: the invocation's
    /// arguments at the end, and the project description passed on.
    pub open spec fn dispatched(self, args: Seq<Seq<char>>) -> CommandLineModel {
        let with_args = self.command.with_args(args);
        match self.used_flake {
            Some(flake) => with_args.with_env(FLAKE_PATH_VAR@, flake.flake_path),
            None => with_args,
        }
    }
}

impl Model for ToolInvoker {
    type M = ToolInvokerModel;

    closed spec fn model(&self) -> ToolInvokerModel {
        ToolInvokerModel { command: self.inner.model(), used_flake: self.used_flake.model() }
    }
}

/// The invoker of the invocation's tool in a toolchain directory.
pub open spec fn invoker_in(
    obs: ObsModel,
    toolchain_dir: Seq<char>,
    invocation: InvocationModel,
    env: EnvModel,
) -> StepModel<Result<ToolInvokerModel, ErrorModel>> {
    match command_at(obs, path_join(toolchain_dir, BIN_DIR@), invocation.tool.name()) {
        StepModel::Need(query) => StepModel::Need(query),
        StepModel::Done(Some(command)) => StepModel::Done(
            Ok(ToolInvokerModel::of(configured(command, env, Some(toolchain_dir)))),
        ),
        StepModel::Done(None) => StepModel::Done(
            Err(
                ErrorModel::ToolchainDoesNotProvideTool {
                    path: toolchain_dir,
                    tool: invocation.tool.name(),
                },
            ),
        ),
    }
}

/// Every hand-off adds one to the recursion counter: the command carries a
/// counter that reads back as one more than that of this process.
pub proof fn lemma_counter_increases(
    command: CommandLineModel,
    env: EnvModel,
    toolchain_dir: Option<Seq<char>>,
)
    requires
        counted(env, RECURSION_VAR@) < u32::MAX,
    ensures
        configured(command, env, toolchain_dir).envs.contains_key(RECURSION_VAR@),
        crate::number::parsed_u32(configured(command, env, toolchain_dir).envs[RECURSION_VAR@])
            == Some((counted(env, RECURSION_VAR@) + 1) as u32),
{
    reveal_strlit("RUST_RECURSION_COUNT");
    reveal_strlit("LD_LIBRARY_PATH");
    reveal_strlit("DYLD_FALLBACK_LIBRARY_PATH");
    assert(library_var(env.platform).len() != RECURSION_VAR@.len());
    crate::number::lemma_parse_decimal((counted(env, RECURSION_VAR@) + 1) as u32);
}

/// The search path for executables is not touched by the environment of a
/// toolchain: the command sets it, or leaves it unset, as it did before.
pub proof fn lemma_search_path_untouched(
    command: CommandLineModel,
    env: EnvModel,
    toolchain_dir: Option<Seq<char>>,
)
    ensures
        configured(command, env, toolchain_dir).envs.contains_key(SEARCH_PATH_VAR@)
            == command.envs.contains_key(SEARCH_PATH_VAR@),
        command.envs.contains_key(SEARCH_PATH_VAR@) ==> configured(
            command,
            env,
            toolchain_dir,
        ).envs[SEARCH_PATH_VAR@] == command.envs[SEARCH_PATH_VAR@],
        configured(command, env, toolchain_dir).program == command.program,
        configured(command, env, toolchain_dir).args == command.args,
{
    reveal_strlit("PATH");
    reveal_strlit("RUST_RECURSION_COUNT");
    reveal_strlit("LD_LIBRARY_PATH");
    reveal_strlit("DYLD_FALLBACK_LIBRARY_PATH");
    assert(library_var(env.platform).len() != SEARCH_PATH_VAR@.len());
    assert(RECURSION_VAR@.len() != SEARCH_PATH_VAR@.len());
}

/// A chain of hand-offs is bounded: a process that was reached through more
/// than twenty hand-offs stops, whatever else holds.
pub proof fn lemma_limit(count: u32)
    ensures
        limit_exceeded(count) <==> count >= RECURSION_CEILING,
        !limit_exceeded(count) ==> (next_count(count) matches Some(next) && next
            <= RECURSION_CEILING),
{
}

/// The counter that a process hands on.
pub fn next_recursion_count(count: u32) -> (next: Option<u32>)
    ensures
        next == next_count(count),
{
    count.checked_add(1)
}

/// Whether a process that starts with the counter `count` has to stop at once.
pub fn recursion_limit_exceeded(count: u32) -> (exceeded: bool)
    ensures
        exceeded == limit_exceeded(count),
{
    count >= RECURSION_CEILING
}

impl ToolInvoker {
    /// The invoker of the invocation's tool in the toolchain at
    /// `toolchain_dir`, whose executables are in its `bin` directory.
    pub fn from_toolchain_dir(
        obs: &Observations,
        toolchain_dir: &str,
        invocation: &Invocation,
        env: &Environment,
    ) -> (invoker: Step<Result<Self, Error>>)
        ensures
            invoker.model() == invoker_in(
                obs.model(),
                toolchain_dir@,
                invocation.model(),
                env.model(),
            ),
    {
        let bin = join(toolchain_dir, BIN_DIR);
        let name = invocation.tool.to_executable_name();
        match ExternalInvoker::new_at(obs, bin.as_str(), name.as_str()) {
            Step::Need(query) => Step::Need(query),
            Step::Done(Some(invoker)) => Step::Done(
                Ok(Self::from_external_invoker(invoker, Some(toolchain_dir), env)),
            ),
            Step::Done(None) => Step::Done(
                Err(
                    Error::ToolchainDoesNotProvideTool {
                        path: owned(toolchain_dir),
                        tool: invocation.tool.to_name(),
                    },
                ),
            ),
        }
    }

    /// The invoker of the executable `tool_exe` of the toolchain at `toolchain_dir`.
    pub fn from_tool_and_toolchain_dir(tool_exe: &str, toolchain_dir: &str, env: &Environment) -> (invoker:
        Self)
        ensures
            invoker.model() == ToolInvokerModel::of(
                configured(CommandLineModel::of(tool_exe@), env.model(), Some(toolchain_dir@)),
            ),
    {
        Self::from_external_invoker(
            ExternalInvoker::from_executable(tool_exe),
            Some(toolchain_dir),
            env,
        )
    }

    /// The invoker of an executable that belongs to no toolchain.
    pub fn from_executable(executable: &str, env: &Environment) -> (invoker: Self)
        ensures
            invoker.model() == ToolInvokerModel::of(
                configured(CommandLineModel::of(executable@), env.model(), None),
            ),
    {
        Self::from_external_invoker(ExternalInvoker::from_executable(executable), None, env)
    }

    /// The invoker of a command, with the environment of a toolchain.
    pub fn from_external_invoker(
        invoker: ExternalInvoker,
        toolchain_dir: Option<&str>,
        env: &Environment,
    ) -> (configured_invoker: Self)
        ensures
            configured_invoker.model() == ToolInvokerModel::of(
                configured(invoker.model(), env.model(), toolchain_dir.model()),
            ),
    {
        let mut command = invoker.into_command();
        Self::configure_command_for_toolchain(toolchain_dir, &mut command, env);
        Self::new(ExternalInvoker::from_command(command))
    }

    /// Sets up the environment of a command for running a toolchain.
    pub fn configure_command_for_toolchain(
        toolchain_dir: Option<&str>,
        command: &mut CommandLine,
        env: &Environment,
    )
        ensures
            final(command).model() == configured(
                old(command).model(),
                env.model(),
                toolchain_dir.model(),
            ),
    {
        if let Some(toolchain_dir) = toolchain_dir {
            let platform = env.platform();
            let library_path_var = platform.library_path_var();
            let held = env.var_os(library_path_var);
            let mut new_library_paths: Vec<String> = Vec::new();
            new_library_paths.push(join(toolchain_dir, LIB_DIR));
            assert(new_library_paths.model() =~= seq![path_join(toolchain_dir@, LIB_DIR@)]);
            let unset_or_empty = match held {
                Some(text) => text.unicode_len() == 0,
                None => true,
            };
            let on_fallback_platform = match platform {
                Platform::MacOs => true,
                Platform::Other => false,
            };
            if on_fallback_platform && unset_or_empty {
                if let Some(home) = env.var_os(HOME_VAR) {
                    let ghost before = new_library_paths.model();
                    new_library_paths.push(join(home, LIB_DIR));
                    assert(new_library_paths.model() =~= before.push(path_join(home@, LIB_DIR@)));
                }
                let ghost before = new_library_paths.model();
                new_library_paths.push(owned("/usr/local/lib"));
                new_library_paths.push(owned("/usr/lib"));
                assert(new_library_paths.model() =~= before.push("/usr/local/lib"@).push(
                    "/usr/lib"@,
                ));
            }
            assert(new_library_paths.model() == library_dirs(env.model(), toolchain_dir@));
            command.env(library_path_var, prepend_paths(held, &new_library_paths));
        }
        match next_recursion_count(u32_from_env(env, RECURSION_VAR)) {
            Some(next) => {
                command.env(RECURSION_VAR, format_u32(next));
            },
            None => {},
        }
    }

    /// The invoker that runs the invocation's tool through another command.
    /// The hand-off counts: the command carries the next recursion counter.
    pub fn from_command_proxy(
        partial_command: CommandLine,
        invocation: &Invocation,
        env: &Environment,
    ) -> (invoker: Self)
        ensures
            invoker.model() == ToolInvokerModel::of(
                configured(
                    partial_command.model().with_arg(invocation.model().tool.name()),
                    env.model(),
                    None,
                ),
            ),
    {
        let mut command = partial_command;
        command.arg(invocation.tool.to_executable_name());
        Self::configure_command_for_toolchain(None, &mut command, env);
        Self::new(ExternalInvoker::from_command(command))
    }

    /// The invoker of a command as it is.
    pub fn new(inner: ExternalInvoker) -> (invoker: Self)
        ensures
            invoker.model() == ToolInvokerModel::of(inner.model()),
    {
        ToolInvoker { inner, used_flake: None }
    }

    /// Notes the project description that led to this invoker.
    pub fn set_flake(&mut self, flake: NixFlake)
        ensures
            final(self).model() == (ToolInvokerModel {
                used_flake: Some(flake.model()),
                ..old(self).model()
            }),
    {
        self.used_flake = Some(flake);
    }

    /// The command that takes the place of this process: the invoker's
    /// command with the arguments `args`, and the project description
    /// passed on so that the next process need not search for it.
    pub fn dispatch(self, args: &Vec<String>) -> (command: CommandLine)
        ensures
            command.model() == self.model().dispatched(args.model()),
    {
        let ToolInvoker { inner, used_flake } = self;
        let mut command = inner.into_command();
        command.args(args);
        if let Some(flake) = used_flake {
            command.env(FLAKE_PATH_VAR, owned(flake.path()));
        }
        command
    }
}

/// The making of an invoker from a toolchain directory is settled.
pub proof fn lemma_invoker_in_settled(
    earlier: ObsModel,
    later: ObsModel,
    toolchain_dir: Seq<char>,
    invocation: InvocationModel,
    env: EnvModel,
)
    requires
        crate::world::extends(later, earlier),
    ensures
        crate::world::settled(
            invoker_in(earlier, toolchain_dir, invocation, env),
            invoker_in(later, toolchain_dir, invocation, env),
            earlier,
        ),
{
    lemma_command_at_settled(
        earlier,
        later,
        path_join(toolchain_dir, BIN_DIR@),
        invocation.tool.name(),
    );
}

} // verus!
