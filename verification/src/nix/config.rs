//! What a project description declares, and what the dispatcher makes of it.

use vstd::prelude::*;
use crate::environment::{
    EnvModel, Environment, FALLBACK_VAR, GENERIC_TOOLCHAIN_VAR, INSIDE_DEVELOP_VAR, TOOLCHAIN_VAR,
};
use crate::error::{Error, ErrorModel, FlakeEvalError, FlakeEvalErrorModel};
use crate::invocation::{
    Invocation, InvocationModel, InvokedToolModel, ToolchainOverride, ToolchainOverrideModel,
};
use crate::invoker::external::{CommandLine, CommandLineModel};
use crate::invoker::{configured, invoker_in, ToolInvoker, ToolInvokerModel};
use crate::model::Model;
use crate::nix::flake::{FlakeBuildOutputModel, NixFlake, NixFlakeModel};
use crate::nix::{NixCommand, NixCommandModel};
use crate::table::Keyed;
use crate::text::{chain, chain3, owned, same_text};
use crate::world::{
    current_exe_of, extends, lemma_known_stays, settled, ObsModel, Observations, Query, QueryModel,
    Step, StepModel,
};

verus! {

/// The kind of a value that a project description declares. Only a
/// derivation can be built.
#[derive(Debug, Clone, PartialEq, Eq)]
pub enum FlakeValueType {
    Derivation,
    Other(String),
}

pub ghost enum FlakeValueTypeModel {
    Derivation,
    Other(Seq<char>),
}

impl Model for FlakeValueType {
    type M = FlakeValueTypeModel;

    open spec fn model(&self) -> FlakeValueTypeModel {
        match self {
            FlakeValueType::Derivation => FlakeValueTypeModel::Derivation,
            FlakeValueType::Other(kind) => FlakeValueTypeModel::Other(kind@),
        }
    }
}

/// The kind that a type name stands for.
pub open spec fn value_type_named(name: Seq<char>) -> FlakeValueTypeModel {
    if name == "derivation"@ {
        FlakeValueTypeModel::Derivation
    } else {
        FlakeValueTypeModel::Other(name)
    }
}

/// Whether a declared value is there and can be built.
pub open spec fn buildable(value: Option<FlakeValueTypeModel>) -> bool {
    value == Some(FlakeValueTypeModel::Derivation)
}

impl FlakeValueType {
    /// The kind that the type name `name` stands for.
    pub fn from_type_name(name: &str) -> (kind: FlakeValueType)
        ensures
            kind.model() == value_type_named(name@),
    {
        if same_text(name, "derivation") {
            FlakeValueType::Derivation
        } else {
            FlakeValueType::Other(owned(name))
        }
    }

    /// Whether the value can be built.
    pub fn is_derivation(&self) -> (derivation: bool)
        ensures
            derivation == (self.model() == FlakeValueTypeModel::Derivation),
    {
        match self {
            FlakeValueType::Derivation => true,
            FlakeValueType::Other(_) => false,
        }
    }
}

/// The dispatcher's own section of a project description.
#[derive(Debug, Clone)]
pub struct FlakeEmbeddedConfig {
    /// The project asks to be left alone.
    pub ignore: bool,
    /// The toolchain to use where none is named.
    pub toolchain: Option<FlakeValueType>,
    /// The toolchains that can be asked for by name.
    pub toolchains: Keyed<FlakeValueType>,
}

pub ghost struct FlakeEmbeddedConfigModel {
    pub ignore: bool,
    pub toolchain: Option<FlakeValueTypeModel>,
    pub toolchains: Map<Seq<char>, FlakeValueTypeModel>,
}

impl Model for FlakeEmbeddedConfig {
    type M = FlakeEmbeddedConfigModel;

    open spec fn model(&self) -> FlakeEmbeddedConfigModel {
        FlakeEmbeddedConfigModel {
            ignore: self.ignore,
            toolchain: self.toolchain.model(),
            toolchains: self.toolchains.model(),
        }
    }
}

/// The dispatcher's section together with the attribute path at which it stands.
#[derive(Debug, Clone)]
pub struct FlakeEmbeddedConfigAttr {
    pub at: String,
    pub value: FlakeEmbeddedConfig,
}

pub ghost struct FlakeEmbeddedConfigAttrModel {
    pub at: Seq<char>,
    pub value: FlakeEmbeddedConfigModel,
}

impl Model for FlakeEmbeddedConfigAttr {
    type M = FlakeEmbeddedConfigAttrModel;

    open spec fn model(&self) -> FlakeEmbeddedConfigAttrModel {
        FlakeEmbeddedConfigAttrModel { at: self.at@, value: self.value.model() }
    }
}

/// What the evaluation of a project description reports.
#[derive(Debug, Clone)]
pub struct FlakeInspection {
    /// The project's default shell.
    pub default_dev_shell: Option<FlakeValueType>,
    /// The shell that the project keeps for the dispatcher.
    pub rust_wrangler_dev_shell: Option<FlakeValueType>,
    /// The dispatcher's own section.
    pub config: Option<FlakeEmbeddedConfigAttr>,
}

pub ghost struct FlakeInspectionModel {
    pub default_dev_shell: Option<FlakeValueTypeModel>,
    pub rust_wrangler_dev_shell: Option<FlakeValueTypeModel>,
    pub config: Option<FlakeEmbeddedConfigAttrModel>,
}

impl Model for FlakeInspection {
    type M = FlakeInspectionModel;

    open spec fn model(&self) -> FlakeInspectionModel {
        FlakeInspectionModel {
            default_dev_shell: self.default_dev_shell.model(),
            rust_wrangler_dev_shell: self.rust_wrangler_dev_shell.model(),
            config: self.config.model(),
        }
    }
}

/// The name of the build output that is a toolchain directory.
pub const OUT: &'static str = "out";

/// The argument by which the dispatcher knows that it was re-entered from
/// inside a derived shell.
pub const PROXY_MARKER: &'static str = "nix-develop-proxy";

/// The name of the shell that a project keeps for the dispatcher.
pub const WRANGLER_SHELL: &'static str = "rustWrangler";

/// What the try to serve an invocation with one declared toolchain came to.
pub ghost enum Attempt {
    /// The toolchain serves the invocation.
    Resolved(ToolInvokerModel),
    /// The toolchain was built and lacks the tool, which is the package
    /// manager: its directory is kept to fall back on.
    Fallback(Seq<char>),
    /// Anything else that went wrong.
    Fatal(ErrorModel),
}

/// What the result of building a toolchain means for the invocation.
pub open spec fn classify(
    built: Result<ToolInvokerModel, ErrorModel>,
    tool: InvokedToolModel,
) -> Attempt {
    match built {
        Ok(invoker) => Attempt::Resolved(invoker),
        Err(ErrorModel::ToolchainDoesNotProvideTool { path, tool: _ }) => if tool
            == InvokedToolModel::Cargo {
            Attempt::Fallback(path)
        } else {
            Attempt::Fatal(built->Err_0)
        },
        Err(error) => Attempt::Fatal(error),
    }
}

/// The `out` output of the first derivation from `from` on that has one.
pub open spec fn first_out(outputs: Seq<FlakeBuildOutputModel>, from: int) -> Option<Seq<char>>
    decreases outputs.len() - from,
{
    if from < 0 || from >= outputs.len() {
        None
    } else if outputs[from].outputs.contains_key(OUT@) {
        Some(outputs[from].outputs[OUT@])
    } else {
        first_out(outputs, from + 1)
    }
}

/// The command that runs the dispatcher again inside a derived shell. The
/// dispatcher is named by the path of its own executable and told by a
/// marker that it was re-entered. The override, the directory to fall back
/// on, and the sign that the process is inside a derived shell go along in
/// the environment.
pub open spec fn proxy_command(
    nix: NixCommandModel,
    flake: NixFlakeModel,
    shell_name: Option<Seq<char>>,
    toolchain_override: ToolchainOverrideModel,
    fallback: Option<Seq<char>>,
    own_executable: Seq<char>,
) -> CommandLineModel {
    let shell = match shell_name {
        Some(name) => flake.flake_dir + "#"@ + name,
        None => flake.flake_dir,
    };
    let base = CommandLineModel::of(nix.executable).with_arg("develop"@).with_arg(shell).with_arg(
        "--command"@,
    ).with_arg(own_executable).with_arg(PROXY_MARKER@);
    let with_fallback = match fallback {
        Some(dir) => base.with_env(FALLBACK_VAR@, dir),
        None => base,
    };
    let with_override = match toolchain_override.name() {
        Some(name) => with_fallback.with_env(GENERIC_TOOLCHAIN_VAR@, name).with_env(
            TOOLCHAIN_VAR@,
            name,
        ),
        None => with_fallback,
    };
    with_override.with_env(INSIDE_DEVELOP_VAR@, "1"@)
}

/// The command that runs the dispatcher again inside a derived shell, once
/// the dispatcher knows its own executable.
pub open spec fn develop_proxy(
    obs: ObsModel,
    nix: NixCommandModel,
    flake: NixFlakeModel,
    shell_name: Option<Seq<char>>,
    toolchain_override: ToolchainOverrideModel,
    fallback: Option<Seq<char>>,
) -> StepModel<Result<CommandLineModel, ErrorModel>> {
    match current_exe_of(obs) {
        None => StepModel::Need(QueryModel::CurrentExe),
        Some(Err(report)) => StepModel::Done(
            Err(ErrorModel::UnableToDetermineOwnExecutable(report)),
        ),
        Some(Ok(own_executable)) => StepModel::Done(
            Ok(proxy_command(nix, flake, shell_name, toolchain_override, fallback, own_executable)),
        ),
    }
}

/// The decision of the engine: an invoker, a failure, or nothing, which
/// leaves the invocation to the next source of toolchains.
pub type Decision = StepModel<Option<Result<ToolInvokerModel, ErrorModel>>>;

impl FlakeInspectionModel {
    /// The invoker from the declared toolchain at `attr_path` under the
    /// dispatcher's section: the toolchain is built, and its first `out`
    /// output is the toolchain directory. A build without such an output
    /// gives no toolchain.
    pub open spec fn toolchain_built(
        obs: ObsModel,
        nix: NixCommandModel,
        flake: NixFlakeModel,
        invocation: InvocationModel,
        env: EnvModel,
        config: FlakeEmbeddedConfigAttrModel,
        attr_path: Seq<char>,
    ) -> StepModel<Result<ToolInvokerModel, ErrorModel>> {
        match flake.built(obs, nix, config.at + "."@ + attr_path) {
            StepModel::Need(query) => StepModel::Need(query),
            StepModel::Done(Err(error)) => StepModel::Done(Err(ErrorModel::Flake(error))),
            StepModel::Done(Ok(outputs)) => match first_out(outputs, 0) {
                None => StepModel::Done(
                    Err(ErrorModel::Flake(FlakeEvalErrorModel::MissingToolchainDerivation)),
                ),
                Some(toolchain_dir) => invoker_in(obs, toolchain_dir, invocation, env),
            },
        }
    }

    /// The shell to re-enter through: the one kept for the dispatcher if it
    /// can be built, or else the default one if that can be built. The
    /// outer option says whether there is a shell, the inner one its name.
    pub open spec fn shell(self) -> Option<Option<Seq<char>>> {
        if buildable(self.rust_wrangler_dev_shell) {
            Some(Some(WRANGLER_SHELL@))
        } else if buildable(self.default_dev_shell) {
            Some(None)
        } else {
            None
        }
    }

    /// The invoker that re-enters the dispatcher through a derived shell,
    /// with `fallback` as the toolchain directory to fall back on.
    pub open spec fn via_shell(
        self,
        obs: ObsModel,
        nix: NixCommandModel,
        flake: NixFlakeModel,
        invocation: InvocationModel,
        env: EnvModel,
        fallback: Option<Seq<char>>,
    ) -> Decision {
        match self.shell() {
            None => StepModel::Done(None),
            Some(shell_name) => match develop_proxy(
                obs,
                nix,
                flake,
                shell_name,
                invocation.toolchain_override,
                fallback,
            ) {
                StepModel::Need(query) => StepModel::Need(query),
                StepModel::Done(Err(error)) => StepModel::Done(Some(Err(error))),
                StepModel::Done(Ok(command)) => StepModel::Done(
                    Some(
                        Ok(
                            ToolInvokerModel::of(
                                configured(command.with_arg(invocation.tool.name()), env, None),
                            ),
                        ),
                    ),
                ),
            },
        }
    }

    /// The decision once the override is dealt with: the default toolchain
    /// serves if it is declared and can be built. Where there is none to
    /// build and nothing to fall back on, named toolchains that are declared
    /// all the same end the engine's part; otherwise a shell is tried.
    pub open spec fn with_default(
        self,
        obs: ObsModel,
        nix: NixCommandModel,
        flake: NixFlakeModel,
        invocation: InvocationModel,
        env: EnvModel,
        config: FlakeEmbeddedConfigAttrModel,
        fallback: Option<Seq<char>>,
    ) -> Decision {
        if buildable(config.value.toolchain) {
            match Self::toolchain_built(obs, nix, flake, invocation, env, config, "toolchain"@) {
                StepModel::Need(query) => StepModel::Need(query),
                StepModel::Done(built) => match classify(built, invocation.tool) {
                    Attempt::Resolved(invoker) => StepModel::Done(Some(Ok(invoker))),
                    Attempt::Fatal(error) => StepModel::Done(Some(Err(error))),
                    Attempt::Fallback(dir) => self.via_shell(
                        obs,
                        nix,
                        flake,
                        invocation,
                        env,
                        Some(dir),
                    ),
                },
            }
        } else if fallback is None && !(config.value.toolchains.dom() =~= Set::empty()) {
            StepModel::Done(None)
        } else {
            self.via_shell(obs, nix, flake, invocation, env, fallback)
        }
    }

    /// The decision of the engine on an invocation.
    ///
    /// A project that asks to be left alone is left alone. A toolchain that
    /// is asked for by name has to be declared and buildable, or the engine
    /// declines. A toolchain, named or default, that is built and has the
    /// tool serves the invocation. One that lacks the tool is kept to fall
    /// back on if the tool is the package manager, and is a failure
    /// otherwise, as is every failure to build. Without a project section,
    /// or with nothing but a toolchain to fall back on, a derived shell is
    /// tried.
    pub open spec fn made(
        self,
        obs: ObsModel,
        nix: NixCommandModel,
        flake: NixFlakeModel,
        invocation: InvocationModel,
        env: EnvModel,
    ) -> Decision {
        match self.config {
            None => self.via_shell(obs, nix, flake, invocation, env, None),
            Some(config) => if config.value.ignore {
                StepModel::Done(None)
            } else {
                match invocation.toolchain_override.name() {
                    None => self.with_default(obs, nix, flake, invocation, env, config, None),
                    Some(name) => if config.value.toolchains.contains_key(name)
                        && config.value.toolchains[name] == FlakeValueTypeModel::Derivation {
                        match Self::toolchain_built(
                            obs,
                            nix,
                            flake,
                            invocation,
                            env,
                            config,
                            "toolchains."@ + name,
                        ) {
                            StepModel::Need(query) => StepModel::Need(query),
                            StepModel::Done(built) => match classify(built, invocation.tool) {
                                Attempt::Resolved(invoker) => StepModel::Done(Some(Ok(invoker))),
                                Attempt::Fatal(error) => StepModel::Done(Some(Err(error))),
                                Attempt::Fallback(dir) => self.with_default(
                                    obs,
                                    nix,
                                    flake,
                                    invocation,
                                    env,
                                    config,
                                    Some(dir),
                                ),
                            },
                        }
                    } else {
                        StepModel::Done(None)
                    },
                }
            },
        }
    }
}

/// A project that asks to be left alone is left alone, whatever toolchains
/// and shells it declares and whatever is asked for.
pub proof fn lemma_ignore_declines(
    inspection: FlakeInspectionModel,
    obs: ObsModel,
    nix: NixCommandModel,
    flake: NixFlakeModel,
    invocation: InvocationModel,
    env: EnvModel,
)
    requires
        inspection.config matches Some(config) && config.value.ignore,
    ensures
        inspection.made(obs, nix, flake, invocation, env) == StepModel::<
            Option<Result<ToolInvokerModel, ErrorModel>>,
        >::Done(None),
{
}

/// Build outputs of which none is called `out` hold no toolchain directory,
/// however many other outputs they have.
pub proof fn lemma_no_out_no_toolchain(outputs: Seq<FlakeBuildOutputModel>, from: int)
    requires
        forall|i: int| 0 <= i < outputs.len() ==> !(#[trigger] outputs[i]).outputs.contains_key(OUT@),
    ensures
        first_out(outputs, from) is None,
    decreases outputs.len() - from,
{
    if 0 <= from < outputs.len() {
        lemma_no_out_no_toolchain(outputs, from + 1);
    }
}

/// A build without an `out` output is the same as a build without any
/// output: the missing toolchain is the failure, and no other output takes
/// the place of `out`.
pub proof fn lemma_missing_out_is_fatal(
    obs: ObsModel,
    nix: NixCommandModel,
    flake: NixFlakeModel,
    invocation: InvocationModel,
    env: EnvModel,
    config: FlakeEmbeddedConfigAttrModel,
    attr_path: Seq<char>,
)
    requires
        flake.built(obs, nix, config.at + "."@ + attr_path) matches StepModel::Done(Ok(outputs))
            && (forall|i: int|
            0 <= i < outputs.len() ==> !(#[trigger] outputs[i]).outputs.contains_key(OUT@)),
    ensures
        FlakeInspectionModel::toolchain_built(obs, nix, flake, invocation, env, config, attr_path)
            == StepModel::<Result<ToolInvokerModel, ErrorModel>>::Done(
            Err(ErrorModel::Flake(FlakeEvalErrorModel::MissingToolchainDerivation)),
        ),
        classify(
            Err(ErrorModel::Flake(FlakeEvalErrorModel::MissingToolchainDerivation)),
            invocation.tool,
        ) == Attempt::Fatal(ErrorModel::Flake(FlakeEvalErrorModel::MissingToolchainDerivation)),
{
    let outputs = flake.built(obs, nix, config.at + "."@ + attr_path)->Done_0->Ok_0;
    lemma_no_out_no_toolchain(outputs, 0);
}

/// What the try to serve an invocation with one declared toolchain came to.
#[derive(Debug)]
pub enum Tried {
    Resolved(ToolInvoker),
    Fallback(String),
    Fatal(Error),
}

impl Model for Tried {
    type M = Attempt;

    open spec fn model(&self) -> Attempt {
        match self {
            Tried::Resolved(invoker) => Attempt::Resolved(invoker.model()),
            Tried::Fallback(dir) => Attempt::Fallback(dir@),
            Tried::Fatal(error) => Attempt::Fatal(error.model()),
        }
    }
}

/// Says what the result of building a toolchain means for the invocation.
pub fn sort_out(built: Result<ToolInvoker, Error>, invocation: &Invocation) -> (tried: Tried)
    ensures
        tried.model() == classify(built.model(), invocation.model().tool),
{
    match built {
        Ok(invoker) => Tried::Resolved(invoker),
        Err(Error::ToolchainDoesNotProvideTool { path, tool }) => {
            if invocation.tool.is_cargo() {
                Tried::Fallback(path)
            } else {
                Tried::Fatal(Error::ToolchainDoesNotProvideTool { path, tool })
            }
        },
        Err(error) => Tried::Fatal(error),
    }
}

impl FlakeInspection {
    /// Decides whether the project description serves the invocation, and
    /// with which invoker.
    pub fn make_invoker(
        &self,
        obs: &Observations,
        nix_command: &NixCommand,
        flake: &NixFlake,
        invocation: &Invocation,
        env: &Environment,
    ) -> (decision: Step<Option<Result<ToolInvoker, Error>>>)
        ensures
            decision.model() == self.model().made(
                obs.model(),
                nix_command.model(),
                flake.model(),
                invocation.model(),
                env.model(),
            ),
    {
        let config = match &self.config {
            None => {
                return self.through_shell(obs, nix_command, flake, invocation, env, None);
            },
            Some(config) => config,
        };
        if config.value.ignore {
            return Step::Done(None);
        }
        let name = match invocation.toolchain_override.as_override_name() {
            None => {
                return self.default_toolchain(obs, nix_command, flake, invocation, env, config, None);
            },
            Some(name) => name,
        };
        let declared = match config.value.toolchains.get_text(name) {
            Some(kind) => kind.is_derivation(),
            None => false,
        };
        if !declared {
            return Step::Done(None);
        }
        let attr_path = chain("toolchains.", name);
        match Self::build_toolchain(
            obs,
            invocation,
            nix_command,
            flake,
            env,
            config,
            attr_path.as_str(),
        ) {
            Step::Need(query) => Step::Need(query),
            Step::Done(built) => match sort_out(built, invocation) {
                Tried::Resolved(invoker) => Step::Done(Some(Ok(invoker))),
                Tried::Fatal(error) => Step::Done(Some(Err(error))),
                Tried::Fallback(dir) => self.default_toolchain(
                    obs,
                    nix_command,
                    flake,
                    invocation,
                    env,
                    config,
                    Some(dir),
                ),
            },
        }
    }

    /// Decides once the override is dealt with.
    fn default_toolchain(
        &self,
        obs: &Observations,
        nix_command: &NixCommand,
        flake: &NixFlake,
        invocation: &Invocation,
        env: &Environment,
        config: &FlakeEmbeddedConfigAttr,
        fallback: Option<String>,
    ) -> (decision: Step<Option<Result<ToolInvoker, Error>>>)
        ensures
            decision.model() == self.model().with_default(
                obs.model(),
                nix_command.model(),
                flake.model(),
                invocation.model(),
                env.model(),
                config.model(),
                fallback.model(),
            ),
    {
        let declared = match &config.value.toolchain {
            Some(kind) => kind.is_derivation(),
            None => false,
        };
        if declared {
            return match Self::build_toolchain(
                obs,
                invocation,
                nix_command,
                flake,
                env,
                config,
                "toolchain",
            ) {
                Step::Need(query) => Step::Need(query),
                Step::Done(built) => match sort_out(built, invocation) {
                    Tried::Resolved(invoker) => Step::Done(Some(Ok(invoker))),
                    Tried::Fatal(error) => Step::Done(Some(Err(error))),
                    Tried::Fallback(dir) => self.through_shell(
                        obs,
                        nix_command,
                        flake,
                        invocation,
                        env,
                        Some(dir),
                    ),
                },
            };
        }
        let none_named = config.value.toolchains.is_empty();
        assert(none_named == (config.model().value.toolchains.dom() =~= Set::empty())) by {
            assert(config.model().value.toolchains.dom() =~= config.value.toolchains@.dom());
        }
        if fallback.is_none() && !none_named {
            return Step::Done(None);
        }
        self.through_shell(obs, nix_command, flake, invocation, env, fallback)
    }

    /// Decides on the re-entry through a derived shell.
    fn through_shell(
        &self,
        obs: &Observations,
        nix_command: &NixCommand,
        flake: &NixFlake,
        invocation: &Invocation,
        env: &Environment,
        fallback: Option<String>,
    ) -> (decision: Step<Option<Result<ToolInvoker, Error>>>)
        ensures
            decision.model() == self.model().via_shell(
                obs.model(),
                nix_command.model(),
                flake.model(),
                invocation.model(),
                env.model(),
                fallback.model(),
            ),
    {
        let own_shell = match &self.rust_wrangler_dev_shell {
            Some(kind) => kind.is_derivation(),
            None => false,
        };
        let default_shell = match &self.default_dev_shell {
            Some(kind) => kind.is_derivation(),
            None => false,
        };
        let shell_name: Option<&str> = if own_shell {
            Some(WRANGLER_SHELL)
        } else if default_shell {
            None
        } else {
            return Step::Done(None);
        };
        match Self::create_develop_proxy(
            obs,
            nix_command,
            flake,
            shell_name,
            &invocation.toolchain_override,
            fallback,
        ) {
            Step::Need(query) => Step::Need(query),
            Step::Done(Err(error)) => Step::Done(Some(Err(error))),
            Step::Done(Ok(command)) => Step::Done(
                Some(Ok(ToolInvoker::from_command_proxy(command, invocation, env))),
            ),
        }
    }

    /// Makes the command that runs the dispatcher again inside a derived shell.
    pub fn create_develop_proxy(
        obs: &Observations,
        nix_command: &NixCommand,
        flake: &NixFlake,
        shell_name: Option<&str>,
        toolchain_override: &ToolchainOverride,
        toolchain_for_cargo_fallback: Option<String>,
    ) -> (command: Step<Result<CommandLine, Error>>)
        ensures
            command.model() == develop_proxy(
                obs.model(),
                nix_command.model(),
                flake.model(),
                shell_name.model(),
                toolchain_override.model(),
                toolchain_for_cargo_fallback.model(),
            ),
    {
        let own_executable = match obs.current_exe() {
            None => {
                return Step::Need(Query::CurrentExe);
            },
            Some(Err(report)) => {
                return Step::Done(Err(Error::UnableToDetermineOwnExecutable(report.clone())));
            },
            Some(Ok(path)) => path.clone(),
        };
        let mut cmd = CommandLine::new(owned(nix_command.executable()));
        cmd.arg(owned("develop"));
        match shell_name {
            Some(name) => {
                cmd.arg(chain3(flake.dir(), "#", name));
            },
            None => {
                cmd.arg(owned(flake.dir()));
            },
        }
        cmd.arg(owned("--command"));
        cmd.arg(own_executable);
        cmd.arg(owned(PROXY_MARKER));
        if let Some(dir) = toolchain_for_cargo_fallback {
            cmd.env(FALLBACK_VAR, dir);
        }
        match toolchain_override.as_override_name() {
            Some(name) => {
                cmd.env(GENERIC_TOOLCHAIN_VAR, owned(name));
                cmd.env(TOOLCHAIN_VAR, owned(name));
            },
            None => {},
        }
        cmd.env(INSIDE_DEVELOP_VAR, owned("1"));
        Step::Done(Ok(cmd))
    }

    /// Builds the toolchain declared at `toolchain_attr_path` under the
    /// dispatcher's section and makes the invoker of the tool in it.
    pub fn build_toolchain(
        obs: &Observations,
        invocation: &Invocation,
        nix_command: &NixCommand,
        flake: &NixFlake,
        env: &Environment,
        config: &FlakeEmbeddedConfigAttr,
        toolchain_attr_path: &str,
    ) -> (built: Step<Result<ToolInvoker, Error>>)
        ensures
            built.model() == FlakeInspectionModel::toolchain_built(
                obs.model(),
                nix_command.model(),
                flake.model(),
                invocation.model(),
                env.model(),
                config.model(),
                toolchain_attr_path@,
            ),
    {
        let attr = chain3(config.at.as_str(), ".", toolchain_attr_path);
        let outputs = match flake.build(obs, nix_command, attr.as_str()) {
            Step::Need(query) => {
                return Step::Need(query);
            },
            Step::Done(Err(error)) => {
                return Step::Done(Err(Error::Flake(error)));
            },
            Step::Done(Ok(outputs)) => outputs,
        };
        let mut i: usize = 0;
        while i < outputs.len()
            invariant
                i <= outputs.len(),
                outputs.len() == outputs.model().len(),
                first_out(outputs.model(), 0) == first_out(outputs.model(), i as int),
                attr@ == config.model().at + "."@ + toolchain_attr_path@,
                flake.model().built(obs.model(), nix_command.model(), attr@) == StepModel::<
                    Result<Seq<FlakeBuildOutputModel>, FlakeEvalErrorModel>,
                >::Done(Ok(outputs.model())),
            decreases outputs.len() - i,
        {
            assert(outputs.model()[i as int] == outputs@[i as int].model());
            if let Some(path) = outputs[i].outputs.get_text(OUT) {
                return ToolInvoker::from_toolchain_dir(obs, path.as_str(), invocation, env);
            }
            i = i + 1;
        }
        Step::Done(Err(Error::Flake(FlakeEvalError::MissingToolchainDerivation)))
    }
}

/// The building of a declared toolchain is settled.
pub proof fn lemma_toolchain_built_settled(
    earlier: ObsModel,
    later: ObsModel,
    nix: NixCommandModel,
    flake: NixFlakeModel,
    invocation: InvocationModel,
    env: EnvModel,
    config: FlakeEmbeddedConfigAttrModel,
    attr_path: Seq<char>,
)
    requires
        extends(later, earlier),
    ensures
        settled(
            FlakeInspectionModel::toolchain_built(
                earlier,
                nix,
                flake,
                invocation,
                env,
                config,
                attr_path,
            ),
            FlakeInspectionModel::toolchain_built(
                later,
                nix,
                flake,
                invocation,
                env,
                config,
                attr_path,
            ),
            earlier,
        ),
{
    crate::nix::flake::lemma_operations_settled(
        flake,
        earlier,
        later,
        nix,
        config.at + "."@ + attr_path,
        Seq::empty(),
    );
    if let StepModel::Done(Ok(outputs)) = flake.built(earlier, nix, config.at + "."@ + attr_path) {
        if let Some(toolchain_dir) = first_out(outputs, 0) {
            crate::invoker::lemma_invoker_in_settled(earlier, later, toolchain_dir, invocation, env);
        }
    }
}

/// The decision of the engine is settled: what the engine asks for has no
/// answer yet, and what it has decided it decides again whatever else
/// becomes known.
pub proof fn lemma_made_settled(
    inspection: FlakeInspectionModel,
    earlier: ObsModel,
    later: ObsModel,
    nix: NixCommandModel,
    flake: NixFlakeModel,
    invocation: InvocationModel,
    env: EnvModel,
)
    requires
        extends(later, earlier),
    ensures
        settled(
            inspection.made(earlier, nix, flake, invocation, env),
            inspection.made(later, nix, flake, invocation, env),
            earlier,
        ),
{
    lemma_known_stays(earlier, later);
    if let Some(config) = inspection.config {
        lemma_toolchain_built_settled(
            earlier,
            later,
            nix,
            flake,
            invocation,
            env,
            config,
            "toolchain"@,
        );
        if let Some(name) = invocation.toolchain_override.name() {
            lemma_toolchain_built_settled(
                earlier,
                later,
                nix,
                flake,
                invocation,
                env,
                config,
                "toolchains."@ + name,
            );
        }
    }
}

} // verus!
