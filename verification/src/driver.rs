//! The whole way from an invocation to the command that takes the place of
//! the process: the project description first, then the toolchain
//! collection, then the search path.

use vstd::prelude::*;
use crate::collection::{collection_of, ToolchainCollection};
use crate::environment::{
    flag_var, raw_var, text_var, EnvModel, EnvValueModel, Environment, TextVar, DISABLE_NIX_VAR,
    FALLBACK_VAR, GENERIC_TOOLCHAIN_VAR, INSIDE_DEVELOP_VAR, RECURSION_VAR, TOOLCHAIN_VAR,
};
use crate::error::{Error, ErrorModel, FlakeEvalError, FlakeEvalErrorModel};
use crate::invocation::{
    Invocation, InvocationModel, InvokedToolModel, ToolchainOverrideModel,
};
use crate::invoker::external::{CommandLine, CommandLineModel};
use crate::invoker::{
    configured, limit_exceeded, recursion_limit_exceeded, ToolInvoker, ToolInvokerModel,
};
use crate::model::Model;
use crate::nix::config::proxy_command;
use crate::nix::flake::{flake_of, NixFlake, NixFlakeModel};
use crate::nix::proxy::{proxied, run_develop_proxy};
use crate::nix::{nix_command_of, NixCommand, NixCommandModel};
use crate::text::same_text;
use crate::util::{
    counted, executable_in_path, find_executable_in_path, u32_from_env, was_dispatched_into_flake,
};
use crate::world::{
    current_exe_of, extends, lemma_known_stays, settled, status_of, ObsModel, Observations, Query,
    QueryModel, Step, StepModel,
};

verus! {

/// The attribute of a project description that is inspected.
pub const ROOT_ATTR: &'static str = ".";

/// What to do where there is no toolchain collection.
#[derive(Debug, Clone, Copy, PartialEq, Eq, Structural)]
pub enum SearchPolicy {
    /// Without a collection the search has failed.
    Strict,
    /// Without a collection, a process inside a derived shell looks for the
    /// tool in the search path.
    Permissive,
}

/// Why no command could be made.
#[derive(Debug, Clone, PartialEq, Eq)]
pub enum Failure {
    /// Too many hand-offs led to this process.
    RecursionLimit,
    /// The dispatcher was re-entered without a command to run.
    MissingProxyCommand,
    /// The project description could not be evaluated.
    Evaluation(FlakeEvalError),
    /// The project description could not be made to serve the invocation.
    Invoker(Error),
    /// The tool in the search path is the dispatcher itself.
    OwnExecutableInPath,
    /// No source has a toolchain for the invocation.
    NoToolchain,
    /// The toolchain collection does not have the tool.
    Tool(Error),
}

pub ghost enum FailureModel {
    RecursionLimit,
    MissingProxyCommand,
    Evaluation(FlakeEvalErrorModel),
    Invoker(ErrorModel),
    OwnExecutableInPath,
    NoToolchain,
    Tool(ErrorModel),
}

impl Model for Failure {
    type M = FailureModel;

    open spec fn model(&self) -> FailureModel {
        match self {
            Failure::RecursionLimit => FailureModel::RecursionLimit,
            Failure::MissingProxyCommand => FailureModel::MissingProxyCommand,
            Failure::Evaluation(error) => FailureModel::Evaluation(error.model()),
            Failure::Invoker(error) => FailureModel::Invoker(error.model()),
            Failure::OwnExecutableInPath => FailureModel::OwnExecutableInPath,
            Failure::NoToolchain => FailureModel::NoToolchain,
            Failure::Tool(error) => FailureModel::Tool(error.model()),
        }
    }
}

/// The tool as the search path has it.
#[derive(Debug)]
pub enum AmbientTool {
    /// The search path does not have the tool.
    Absent,
    /// What the search path has is the dispatcher itself.
    Own,
    Found(ToolInvoker),
}

pub ghost enum AmbientToolModel {
    Absent,
    Own,
    Found(ToolInvokerModel),
}

impl Model for AmbientTool {
    type M = AmbientToolModel;

    open spec fn model(&self) -> AmbientToolModel {
        match self {
            AmbientTool::Absent => AmbientToolModel::Absent,
            AmbientTool::Own => AmbientToolModel::Own,
            AmbientTool::Found(invoker) => AmbientToolModel::Found(invoker.model()),
        }
    }
}

/// The result of a stage: a command, a failure, or a need.
pub type Outcome = StepModel<Result<CommandLineModel, FailureModel>>;

/// The external build tool, unless this process is inside a derived shell
/// already or the tool is switched off.
pub open spec fn found_nix(env: EnvModel, obs: ObsModel) -> StepModel<Option<NixCommandModel>> {
    if flag_var(env, INSIDE_DEVELOP_VAR@) {
        StepModel::Done(None)
    } else if flag_var(env, DISABLE_NIX_VAR@) {
        StepModel::Done(None)
    } else {
        nix_command_of(env, obs)
    }
}

/// The invocation's tool as the search path has it. What is found counts as
/// the dispatcher itself where both have a canonical form and the two are
/// the same.
pub open spec fn ambient(invocation: InvocationModel, env: EnvModel, obs: ObsModel) -> StepModel<
    AmbientToolModel,
> {
    match executable_in_path(env, obs, invocation.tool.name()) {
        StepModel::Need(query) => StepModel::Need(query),
        StepModel::Done(None) => StepModel::Done(AmbientToolModel::Absent),
        StepModel::Done(Some(path)) => {
            let found = StepModel::Done(
                AmbientToolModel::Found(
                    ToolInvokerModel::of(configured(CommandLineModel::of(path), env, None)),
                ),
            );
            match status_of(obs, path) {
                None => StepModel::Need(QueryModel::Stat(path)),
                Some(status) => match status.canonical {
                    Err(_) => found,
                    Ok(canonical) => match current_exe_of(obs) {
                        None => StepModel::Need(QueryModel::CurrentExe),
                        Some(Err(_)) => found,
                        Some(Ok(own)) => match status_of(obs, own) {
                            None => StepModel::Need(QueryModel::Stat(own)),
                            Some(own_status) => if own_status.canonical == Ok::<
                                Seq<char>,
                                Seq<char>,
                            >(canonical) {
                                StepModel::Done(AmbientToolModel::Own)
                            } else {
                                found
                            },
                        },
                    },
                },
            }
        },
    }
}

/// What the project description makes of the invocation: the command and
/// the failures are final, and nothing leaves the invocation to the next source.
pub open spec fn via_flake(
    invocation: InvocationModel,
    env: EnvModel,
    obs: ObsModel,
    argv0: Option<Seq<char>>,
    expr: Seq<char>,
) -> StepModel<Option<Result<CommandLineModel, FailureModel>>> {
    match found_nix(env, obs) {
        StepModel::Need(query) => StepModel::Need(query),
        StepModel::Done(None) => StepModel::Done(None),
        StepModel::Done(Some(nix)) => match flake_of(env, obs, argv0) {
            StepModel::Need(query) => StepModel::Need(query),
            StepModel::Done(None) => StepModel::Done(None),
            StepModel::Done(Some(flake)) => match flake.evaluated(obs, nix, ROOT_ATTR@, expr) {
                StepModel::Need(query) => StepModel::Need(query),
                StepModel::Done(Err(error)) => StepModel::Done(
                    Some(Err(FailureModel::Evaluation(error))),
                ),
                StepModel::Done(Ok(inspection)) => match inspection.made(
                    obs,
                    nix,
                    flake,
                    invocation,
                    env,
                ) {
                    StepModel::Need(query) => StepModel::Need(query),
                    StepModel::Done(None) => StepModel::Done(None),
                    StepModel::Done(Some(Err(error))) => StepModel::Done(
                        Some(Err(FailureModel::Invoker(error))),
                    ),
                    StepModel::Done(Some(Ok(invoker))) => StepModel::Done(
                        Some(
                            Ok(
                                (ToolInvokerModel {
                                    used_flake: Some(flake),
                                    ..invoker
                                }).dispatched(invocation.remaining_args),
                            ),
                        ),
                    ),
                },
            },
        },
    }
}

/// What the search path makes of the invocation.
pub open spec fn via_search_path(invocation: InvocationModel, env: EnvModel, obs: ObsModel) -> Outcome {
    match ambient(invocation, env, obs) {
        StepModel::Need(query) => StepModel::Need(query),
        StepModel::Done(AmbientToolModel::Found(invoker)) => StepModel::Done(
            Ok(invoker.dispatched(invocation.remaining_args)),
        ),
        StepModel::Done(AmbientToolModel::Own) => StepModel::Done(
            Err(FailureModel::OwnExecutableInPath),
        ),
        StepModel::Done(AmbientToolModel::Absent) => StepModel::Done(
            Err(FailureModel::NoToolchain),
        ),
    }
}

/// What the toolchain collection makes of the invocation, and the search
/// path where there is no collection. Only the package manager may be taken
/// from the default toolchain when the named one lacks it.
pub open spec fn via_collection(
    invocation: InvocationModel,
    env: EnvModel,
    obs: ObsModel,
    policy: SearchPolicy,
) -> Outcome {
    match collection_of(env, obs) {
        StepModel::Need(query) => StepModel::Need(query),
        StepModel::Done(None) => if policy == SearchPolicy::Permissive && flag_var(
            env,
            INSIDE_DEVELOP_VAR@,
        ) {
            via_search_path(invocation, env, obs)
        } else {
            StepModel::Done(Err(FailureModel::NoToolchain))
        },
        StepModel::Done(Some(collection)) => match collection.found_tool(
            obs,
            invocation.tool.name(),
            invocation.toolchain_override.name(),
            invocation.tool == InvokedToolModel::Cargo,
        ) {
            StepModel::Need(query) => StepModel::Need(query),
            StepModel::Done(Err(error)) => StepModel::Done(Err(FailureModel::Tool(error))),
            StepModel::Done(Ok((toolchain_dir, tool_exe))) => StepModel::Done(
                Ok(
                    ToolInvokerModel::of(
                        configured(CommandLineModel::of(tool_exe), env, Some(toolchain_dir)),
                    ).dispatched(invocation.remaining_args),
                ),
            ),
        },
    }
}

/// The command that takes the place of the process.
///
/// The recursion counter is looked at before anything else. A re-entered
/// dispatcher runs its command and resolves nothing. Otherwise the sources
/// are tried in their order, and the first that does not decline decides.
pub open spec fn resolved(
    invocation: InvocationModel,
    env: EnvModel,
    obs: ObsModel,
    argv0: Option<Seq<char>>,
    expr: Seq<char>,
    policy: SearchPolicy,
) -> Outcome {
    if limit_exceeded(counted(env, RECURSION_VAR@)) {
        StepModel::Done(Err(FailureModel::RecursionLimit))
    } else if invocation.tool == InvokedToolModel::NixDevelopProxy {
        match proxied(invocation, env) {
            Some(command) => StepModel::Done(Ok(command)),
            None => StepModel::Done(Err(FailureModel::MissingProxyCommand)),
        }
    } else {
        match via_flake(invocation, env, obs, argv0, expr) {
            StepModel::Need(query) => StepModel::Need(query),
            StepModel::Done(Some(outcome)) => StepModel::Done(outcome),
            StepModel::Done(None) => via_collection(invocation, env, obs, policy),
        }
    }
}

/// A process that starts with the counter at the ceiling or above stops
/// before it looks at anything: no observation is asked for, and none
/// changes the outcome.
pub proof fn lemma_limit_stops_first(
    invocation: InvocationModel,
    env: EnvModel,
    obs: ObsModel,
    argv0: Option<Seq<char>>,
    expr: Seq<char>,
    policy: SearchPolicy,
)
    requires
        counted(env, RECURSION_VAR@) >= crate::invoker::RECURSION_CEILING,
    ensures
        resolved(invocation, env, obs, argv0, expr, policy) == StepModel::<
            Result<CommandLineModel, FailureModel>,
        >::Done(Err(FailureModel::RecursionLimit)),
{
}

/// Looks for the external build tool, unless it is not to be used.
pub fn find_nix(env: &Environment, obs: &Observations) -> (found: Step<Option<NixCommand>>)
    ensures
        found.model() == found_nix(env.model(), obs.model()),
{
    if was_dispatched_into_flake(env) {
        return Step::Done(None);
    }
    if env.flag(DISABLE_NIX_VAR) {
        return Step::Done(None);
    }
    NixCommand::find(env, obs)
}

/// Looks for the invocation's tool in the search path.
pub fn invoker_for_system_path(invocation: &Invocation, env: &Environment, obs: &Observations) -> (found:
    Step<AmbientTool>)
    ensures
        found.model() == ambient(invocation.model(), env.model(), obs.model()),
{
    let name = invocation.tool.to_executable_name();
    let path_delegate = match find_executable_in_path(env, obs, name.as_str()) {
        Step::Need(query) => {
            return Step::Need(query);
        },
        Step::Done(None) => {
            return Step::Done(AmbientTool::Absent);
        },
        Step::Done(Some(path)) => path,
    };
    let status = match obs.stat(path_delegate.as_str()) {
        None => {
            return Step::Need(Query::Stat(path_delegate));
        },
        Some(status) => status,
    };
    if let Ok(canonical_tool_path) = &status.canonical {
        match obs.current_exe() {
            None => {
                return Step::Need(Query::CurrentExe);
            },
            Some(Err(_)) => {},
            Some(Ok(own)) => {
                let own_status = match obs.stat(own.as_str()) {
                    None => {
                        return Step::Need(Query::Stat(own.clone()));
                    },
                    Some(own_status) => own_status,
                };
                if let Ok(self_exe_canonical_path) = &own_status.canonical {
                    if same_text(
                        canonical_tool_path.as_str(),
                        self_exe_canonical_path.as_str(),
                    ) {
                        return Step::Done(AmbientTool::Own);
                    }
                }
            },
        }
    }
    Step::Done(AmbientTool::Found(ToolInvoker::from_executable(path_delegate.as_str(), env)))
}

/// The command of an invoker for an invocation.
pub fn dispatch(invoker: ToolInvoker, invocation: &Invocation) -> (command: CommandLine)
    ensures
        command.model() == invoker.model().dispatched(invocation.model().remaining_args),
{
    invoker.dispatch(&invocation.remaining_args)
}

/// Tries the project description.
pub fn resolve_via_flake(
    invocation: &Invocation,
    env: &Environment,
    obs: &Observations,
    argv0: Option<&str>,
    expr: &str,
) -> (outcome: Step<Option<Result<CommandLine, Failure>>>)
    ensures
        outcome.model() == via_flake(
            invocation.model(),
            env.model(),
            obs.model(),
            argv0.model(),
            expr@,
        ),
{
    let nix_command = match find_nix(env, obs) {
        Step::Need(query) => {
            return Step::Need(query);
        },
        Step::Done(None) => {
            return Step::Done(None);
        },
        Step::Done(Some(nix_command)) => nix_command,
    };
    let flake = match NixFlake::find_automatically(env, obs, argv0) {
        Step::Need(query) => {
            return Step::Need(query);
        },
        Step::Done(None) => {
            return Step::Done(None);
        },
        Step::Done(Some(flake)) => flake,
    };
    let evaluation = match flake.apply_expr_json(obs, &nix_command, ROOT_ATTR, expr) {
        Step::Need(query) => {
            return Step::Need(query);
        },
        Step::Done(Err(error)) => {
            return Step::Done(Some(Err(Failure::Evaluation(error))));
        },
        Step::Done(Ok(evaluation)) => evaluation,
    };
    match evaluation.make_invoker(obs, &nix_command, &flake, invocation, env) {
        Step::Need(query) => Step::Need(query),
        Step::Done(None) => Step::Done(None),
        Step::Done(Some(Err(error))) => Step::Done(Some(Err(Failure::Invoker(error)))),
        Step::Done(Some(Ok(invoker))) => {
            let mut invoker = invoker;
            invoker.set_flake(flake);
            Step::Done(Some(Ok(dispatch(invoker, invocation))))
        },
    }
}

/// Tries the toolchain collection, and the search path where there is none.
pub fn resolve_via_collection(
    invocation: &Invocation,
    env: &Environment,
    obs: &Observations,
    policy: SearchPolicy,
) -> (outcome: Step<Result<CommandLine, Failure>>)
    ensures
        outcome.model() == via_collection(invocation.model(), env.model(), obs.model(), policy),
{
    let toolchain_collection = match ToolchainCollection::find(env, obs) {
        Step::Need(query) => {
            return Step::Need(query);
        },
        Step::Done(None) => {
            let permissive = match policy {
                SearchPolicy::Permissive => true,
                SearchPolicy::Strict => false,
            };
            if permissive && was_dispatched_into_flake(env) {
                return match invoker_for_system_path(invocation, env, obs) {
                    Step::Need(query) => Step::Need(query),
                    Step::Done(AmbientTool::Found(invoker)) => Step::Done(
                        Ok(dispatch(invoker, invocation)),
                    ),
                    Step::Done(AmbientTool::Own) => Step::Done(Err(Failure::OwnExecutableInPath)),
                    Step::Done(AmbientTool::Absent) => Step::Done(Err(Failure::NoToolchain)),
                };
            }
            return Step::Done(Err(Failure::NoToolchain));
        },
        Step::Done(Some(collection)) => collection,
    };
    let name = invocation.tool.to_executable_name();
    match toolchain_collection.find_tool(
        obs,
        name.as_str(),
        invocation.toolchain_override.as_override_name(),
        invocation.tool.is_cargo(),
    ) {
        Step::Need(query) => Step::Need(query),
        Step::Done(Err(error)) => Step::Done(Err(Failure::Tool(error))),
        Step::Done(Ok((toolchain_dir, tool_exe))) => {
            let invoker = ToolInvoker::from_tool_and_toolchain_dir(
                tool_exe.as_str(),
                toolchain_dir.as_str(),
                env,
            );
            Step::Done(Ok(dispatch(invoker, invocation)))
        },
    }
}

/// Resolves an invocation to the command that takes the place of the
/// process, as far as the observations allow.
pub fn resolve(
    invocation: &Invocation,
    env: &Environment,
    obs: &Observations,
    argv0: Option<&str>,
    expr: &str,
    policy: SearchPolicy,
) -> (outcome: Step<Result<CommandLine, Failure>>)
    ensures
        outcome.model() == resolved(
            invocation.model(),
            env.model(),
            obs.model(),
            argv0.model(),
            expr@,
            policy,
        ),
{
    if recursion_limit_exceeded(u32_from_env(env, RECURSION_VAR)) {
        return Step::Done(Err(Failure::RecursionLimit));
    }
    if invocation.tool.is_develop_proxy() {
        return match run_develop_proxy(invocation, env) {
            Some(command) => Step::Done(Ok(command)),
            None => Step::Done(Err(Failure::MissingProxyCommand)),
        };
    }
    match resolve_via_flake(invocation, env, obs, argv0, expr) {
        Step::Need(query) => Step::Need(query),
        Step::Done(Some(outcome)) => Step::Done(outcome),
        Step::Done(None) => resolve_via_collection(invocation, env, obs, policy),
    }
}

/// The search in the search path is settled.
pub proof fn lemma_ambient_settled(
    invocation: InvocationModel,
    env: EnvModel,
    earlier: ObsModel,
    later: ObsModel,
)
    requires
        extends(later, earlier),
    ensures
        settled(ambient(invocation, env, earlier), ambient(invocation, env, later), earlier),
{
    lemma_known_stays(earlier, later);
    crate::util::lemma_executable_in_path_settled(env, earlier, later, invocation.tool.name());
}

/// The try with the project description is settled.
pub proof fn lemma_via_flake_settled(
    invocation: InvocationModel,
    env: EnvModel,
    earlier: ObsModel,
    later: ObsModel,
    argv0: Option<Seq<char>>,
    expr: Seq<char>,
)
    requires
        extends(later, earlier),
    ensures
        settled(
            via_flake(invocation, env, earlier, argv0, expr),
            via_flake(invocation, env, later, argv0, expr),
            earlier,
        ),
{
    crate::nix::lemma_nix_command_settled(env, earlier, later);
    crate::nix::flake::lemma_flake_of_settled(env, earlier, later, argv0);
    if let StepModel::Done(Some(nix)) = found_nix(env, earlier) {
        if let StepModel::Done(Some(flake)) = flake_of(env, earlier, argv0) {
            crate::nix::flake::lemma_operations_settled(
                flake,
                earlier,
                later,
                nix,
                ROOT_ATTR@,
                expr,
            );
            if let StepModel::Done(Ok(inspection)) = flake.evaluated(earlier, nix, ROOT_ATTR@, expr) {
                crate::nix::config::lemma_made_settled(
                    inspection,
                    earlier,
                    later,
                    nix,
                    flake,
                    invocation,
                    env,
                );
            }
        }
    }
}

/// The try with the collection is settled.
pub proof fn lemma_via_collection_settled(
    invocation: InvocationModel,
    env: EnvModel,
    earlier: ObsModel,
    later: ObsModel,
    policy: SearchPolicy,
)
    requires
        extends(later, earlier),
    ensures
        settled(
            via_collection(invocation, env, earlier, policy),
            via_collection(invocation, env, later, policy),
            earlier,
        ),
{
    crate::collection::lemma_collection_settled(env, earlier, later);
    lemma_ambient_settled(invocation, env, earlier, later);
    if let StepModel::Done(Some(collection)) = collection_of(env, earlier) {
        crate::collection::lemma_found_tool_settled(
            collection,
            earlier,
            later,
            invocation.tool.name(),
            invocation.toolchain_override.name(),
            invocation.tool == InvokedToolModel::Cargo,
        );
    }
}

/// The resolution is settled. A query that it needs has no answer yet, so
/// answering what is asked for makes the observations grow; and the
/// command or failure that it has come to is what it comes to with every
/// later state of the observations: the outcome rests on nothing but the
/// answers that were asked for.
pub proof fn lemma_resolved_settled(
    invocation: InvocationModel,
    env: EnvModel,
    earlier: ObsModel,
    later: ObsModel,
    argv0: Option<Seq<char>>,
    expr: Seq<char>,
    policy: SearchPolicy,
)
    requires
        extends(later, earlier),
    ensures
        settled(
            resolved(invocation, env, earlier, argv0, expr, policy),
            resolved(invocation, env, later, argv0, expr, policy),
            earlier,
        ),
{
    lemma_via_flake_settled(invocation, env, earlier, later, argv0, expr);
    lemma_via_collection_settled(invocation, env, earlier, later, policy);
}

/// The environment of a process that a command starts: the variables that
/// the command sets, and the others as this process has them.
pub open spec fn inherited(env: EnvModel, command: CommandLineModel) -> EnvModel {
    EnvModel {
        vars: Map::new(
            |name: Seq<char>| env.vars.contains_key(name) || command.envs.contains_key(name),
            |name: Seq<char>|
                if command.envs.contains_key(name) {
                    EnvValueModel { text: command.envs[name], unicode: true }
                } else {
                    env.vars[name]
                },
        ),
        platform: env.platform,
    }
}

/// What crosses the hand-off into a derived shell. The process that is
/// re-entered there finds itself marked as inside a derived shell, and so
/// does not look for the external build tool again, whatever it observes.
/// It finds the override under both variables, the directory to fall back
/// on, and a recursion counter that is one higher.
pub proof fn lemma_reentry_carries_the_context(
    nix: NixCommandModel,
    flake: NixFlakeModel,
    shell_name: Option<Seq<char>>,
    toolchain_override: ToolchainOverrideModel,
    fallback: Option<Seq<char>>,
    own_executable: Seq<char>,
    tool: InvokedToolModel,
    env: EnvModel,
    obs: ObsModel,
)
    ensures
        ({
            let command = configured(
                proxy_command(
                    nix,
                    flake,
                    shell_name,
                    toolchain_override,
                    fallback,
                    own_executable,
                ).with_arg(tool.name()),
                env,
                None,
            );
            let next = inherited(env, command);
            &&& flag_var(next, INSIDE_DEVELOP_VAR@)
            &&& found_nix(next, obs) == StepModel::<Option<NixCommandModel>>::Done(None)
            &&& toolchain_override.name() matches Some(name) ==> text_var(next, TOOLCHAIN_VAR@)
                == TextVar::Text(name) && text_var(next, GENERIC_TOOLCHAIN_VAR@) == TextVar::Text(
                name,
            )
            &&& fallback matches Some(dir) ==> raw_var(next, FALLBACK_VAR@) == Some(dir)
            &&& counted(env, RECURSION_VAR@) < u32::MAX ==> counted(next, RECURSION_VAR@)
                == counted(env, RECURSION_VAR@) + 1
        }),
{
    reveal_strlit("1");
    reveal_strlit("NIX_RUST_WRANGLER_TOOLCHAIN");
    reveal_strlit("RUSTUP_TOOLCHAIN");
    reveal_strlit("NIX_RUST_WRANGLER_INSIDE_NIX_DEVELOP");
    reveal_strlit("NIX_RUST_WRANGLER_TOOLCHAIN_FALLBACK");
    reveal_strlit("RUST_RECURSION_COUNT");
    assert(TOOLCHAIN_VAR@.len() == 27);
    assert(GENERIC_TOOLCHAIN_VAR@.len() == 16);
    assert(INSIDE_DEVELOP_VAR@.len() == 36);
    assert(FALLBACK_VAR@.len() == 36);
    assert(RECURSION_VAR@.len() == 20);
    assert(INSIDE_DEVELOP_VAR@[18] == 'I');
    assert(FALLBACK_VAR@[18] == 'T');
    if counted(env, RECURSION_VAR@) < u32::MAX {
        crate::number::lemma_parse_decimal((counted(env, RECURSION_VAR@) + 1) as u32);
    }
}

} // verus!
