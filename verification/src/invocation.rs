//! From the argument vector and the environment to a structured invocation.

use vstd::prelude::*;
use crate::environment::{
    text_var, EnvModel, Environment, TextVar, VarError, GENERIC_TOOLCHAIN_VAR, TOOLCHAIN_VAR,
};
use crate::error::{Error, ErrorModel};
use crate::model::Model;
use crate::paths::{file_stem, path_file_stem};
use crate::text::{after_marker, owned, same_text, strip_marker};

verus! {

/// The tool that the dispatcher was asked to stand in for.
#[derive(Debug, Clone, PartialEq, Eq)]
pub enum InvokedTool {
    Rustc,
    RustDoc,
    Cargo,
    RustLLDB,
    RustGDB,
    RustGDBGUI,
    Rls,
    CargoClippy,
    ClippyDriver,
    CargoMiri,
    RustAnalayzer,
    RustFmt,
    CargoFmt,
    Rustup,
    /// The dispatcher under its own name.
    NixRustWrangler,
    /// The dispatcher re-entered from inside a derived shell.
    NixDevelopProxy,
    /// A name that is none of the above.
    Other(String),
}

pub ghost enum InvokedToolModel {
    Rustc,
    RustDoc,
    Cargo,
    RustLLDB,
    RustGDB,
    RustGDBGUI,
    Rls,
    CargoClippy,
    ClippyDriver,
    CargoMiri,
    RustAnalayzer,
    RustFmt,
    CargoFmt,
    Rustup,
    NixRustWrangler,
    NixDevelopProxy,
    Other(Seq<char>),
}

impl InvokedToolModel {
    /// The file name under which the tool is invoked and found.
    pub open spec fn name(self) -> Seq<char> {
        match self {
            InvokedToolModel::Rustc => "rustc"@,
            InvokedToolModel::RustDoc => "rustdoc"@,
            InvokedToolModel::Cargo => "cargo"@,
            InvokedToolModel::RustLLDB => "rust-lldb"@,
            InvokedToolModel::RustGDB => "rust-gdb"@,
            InvokedToolModel::RustGDBGUI => "rust-gdbgui"@,
            InvokedToolModel::Rls => "rls"@,
            InvokedToolModel::CargoClippy => "cargo-clippy"@,
            InvokedToolModel::ClippyDriver => "clippy-driver"@,
            InvokedToolModel::CargoMiri => "cargo-miri"@,
            InvokedToolModel::RustAnalayzer => "rust-analyzer"@,
            InvokedToolModel::RustFmt => "rustfmt"@,
            InvokedToolModel::CargoFmt => "cargo-fmt"@,
            InvokedToolModel::Rustup => "rustup"@,
            InvokedToolModel::NixRustWrangler => "nix-rust-wrangler"@,
            InvokedToolModel::NixDevelopProxy => "nix-develop-proxy"@,
            InvokedToolModel::Other(name) => name,
        }
    }
}

/// The tool that goes by a file name: the known tool of that exact name, or
/// else the name itself.
pub open spec fn tool_named(name: Seq<char>) -> InvokedToolModel {
    if name == "rustc"@ {
        InvokedToolModel::Rustc
    } else if name == "rustdoc"@ {
        InvokedToolModel::RustDoc
    } else if name == "cargo"@ {
        InvokedToolModel::Cargo
    } else if name == "rust-lldb"@ {
        InvokedToolModel::RustLLDB
    } else if name == "rust-gdb"@ {
        InvokedToolModel::RustGDB
    } else if name == "rust-gdbgui"@ {
        InvokedToolModel::RustGDBGUI
    } else if name == "rls"@ {
        InvokedToolModel::Rls
    } else if name == "cargo-clippy"@ {
        InvokedToolModel::CargoClippy
    } else if name == "clippy-driver"@ {
        InvokedToolModel::ClippyDriver
    } else if name == "cargo-miri"@ {
        InvokedToolModel::CargoMiri
    } else if name == "rust-analyzer"@ {
        InvokedToolModel::RustAnalayzer
    } else if name == "rustfmt"@ {
        InvokedToolModel::RustFmt
    } else if name == "cargo-fmt"@ {
        InvokedToolModel::CargoFmt
    } else if name == "rustup"@ {
        InvokedToolModel::Rustup
    } else if name == "nix-rust-wrangler"@ {
        InvokedToolModel::NixRustWrangler
    } else if name == "nix-develop-proxy"@ {
        InvokedToolModel::NixDevelopProxy
    } else {
        InvokedToolModel::Other(name)
    }
}

impl Model for InvokedTool {
    type M = InvokedToolModel;

    open spec fn model(&self) -> InvokedToolModel {
        match self {
            InvokedTool::Rustc => InvokedToolModel::Rustc,
            InvokedTool::RustDoc => InvokedToolModel::RustDoc,
            InvokedTool::Cargo => InvokedToolModel::Cargo,
            InvokedTool::RustLLDB => InvokedToolModel::RustLLDB,
            InvokedTool::RustGDB => InvokedToolModel::RustGDB,
            InvokedTool::RustGDBGUI => InvokedToolModel::RustGDBGUI,
            InvokedTool::Rls => InvokedToolModel::Rls,
            InvokedTool::CargoClippy => InvokedToolModel::CargoClippy,
            InvokedTool::ClippyDriver => InvokedToolModel::ClippyDriver,
            InvokedTool::CargoMiri => InvokedToolModel::CargoMiri,
            InvokedTool::RustAnalayzer => InvokedToolModel::RustAnalayzer,
            InvokedTool::RustFmt => InvokedToolModel::RustFmt,
            InvokedTool::CargoFmt => InvokedToolModel::CargoFmt,
            InvokedTool::Rustup => InvokedToolModel::Rustup,
            InvokedTool::NixRustWrangler => InvokedToolModel::NixRustWrangler,
            InvokedTool::NixDevelopProxy => InvokedToolModel::NixDevelopProxy,
            InvokedTool::Other(name) => InvokedToolModel::Other(name@),
        }
    }
}

impl InvokedTool {
    /// The tool that goes by the file name `name`.
    pub fn from_name(name: &str) -> (tool: InvokedTool)
        ensures
            tool.model() == tool_named(name@),
    {
        if same_text(name, "rustc") {
            InvokedTool::Rustc
        } else if same_text(name, "rustdoc") {
            InvokedTool::RustDoc
        } else if same_text(name, "cargo") {
            InvokedTool::Cargo
        } else if same_text(name, "rust-lldb") {
            InvokedTool::RustLLDB
        } else if same_text(name, "rust-gdb") {
            InvokedTool::RustGDB
        } else if same_text(name, "rust-gdbgui") {
            InvokedTool::RustGDBGUI
        } else if same_text(name, "rls") {
            InvokedTool::Rls
        } else if same_text(name, "cargo-clippy") {
            InvokedTool::CargoClippy
        } else if same_text(name, "clippy-driver") {
            InvokedTool::ClippyDriver
        } else if same_text(name, "cargo-miri") {
            InvokedTool::CargoMiri
        } else if same_text(name, "rust-analyzer") {
            InvokedTool::RustAnalayzer
        } else if same_text(name, "rustfmt") {
            InvokedTool::RustFmt
        } else if same_text(name, "cargo-fmt") {
            InvokedTool::CargoFmt
        } else if same_text(name, "rustup") {
            InvokedTool::Rustup
        } else if same_text(name, "nix-rust-wrangler") {
            InvokedTool::NixRustWrangler
        } else if same_text(name, "nix-develop-proxy") {
            InvokedTool::NixDevelopProxy
        } else {
            InvokedTool::Other(owned(name))
        }
    }

    /// The file name of the tool's executable.
    pub fn to_executable_name(&self) -> (name: String)
        ensures
            name@ == self.model().name(),
    {
        match self {
            InvokedTool::Rustc => owned("rustc"),
            InvokedTool::RustDoc => owned("rustdoc"),
            InvokedTool::Cargo => owned("cargo"),
            InvokedTool::RustLLDB => owned("rust-lldb"),
            InvokedTool::RustGDB => owned("rust-gdb"),
            InvokedTool::RustGDBGUI => owned("rust-gdbgui"),
            InvokedTool::Rls => owned("rls"),
            InvokedTool::CargoClippy => owned("cargo-clippy"),
            InvokedTool::ClippyDriver => owned("clippy-driver"),
            InvokedTool::CargoMiri => owned("cargo-miri"),
            InvokedTool::RustAnalayzer => owned("rust-analyzer"),
            InvokedTool::RustFmt => owned("rustfmt"),
            InvokedTool::CargoFmt => owned("cargo-fmt"),
            InvokedTool::Rustup => owned("rustup"),
            InvokedTool::NixRustWrangler => owned("nix-rust-wrangler"),
            InvokedTool::NixDevelopProxy => owned("nix-develop-proxy"),
            InvokedTool::Other(name) => name.clone(),
        }
    }

    /// The tool's name for messages.
    pub fn to_name(&self) -> (name: String)
        ensures
            name@ == self.model().name(),
    {
        self.to_executable_name()
    }

    /// Whether this is the dispatcher under its own name.
    pub fn is_dispatcher(&self) -> (own: bool)
        ensures
            own == (self.model() == InvokedToolModel::NixRustWrangler),
    {
        match self {
            InvokedTool::NixRustWrangler => true,
            _ => false,
        }
    }

    /// Whether this is the package manager.
    pub fn is_cargo(&self) -> (cargo: bool)
        ensures
            cargo == (self.model() == InvokedToolModel::Cargo),
    {
        match self {
            InvokedTool::Cargo => true,
            _ => false,
        }
    }

    /// Whether this is the re-entry from inside a derived shell.
    pub fn is_develop_proxy(&self) -> (proxy: bool)
        ensures
            proxy == (self.model() == InvokedToolModel::NixDevelopProxy),
    {
        match self {
            InvokedTool::NixDevelopProxy => true,
            _ => false,
        }
    }
}

/// A name resolves to a tool that goes by that very name: nothing of the name
/// is lost, whether the tool is known or not.
pub proof fn lemma_name_is_preserved(name: Seq<char>)
    ensures
        tool_named(name).name() == name,
{
}

/// A name that no known tool goes by resolves to `Other` with the name unchanged.
pub proof fn lemma_unknown_name_is_other(name: Seq<char>)
    requires
        forall|tool: InvokedToolModel| tool !is Other ==> #[trigger] tool.name() != name,
    ensures
        tool_named(name) == InvokedToolModel::Other(name),
{
    assert(InvokedToolModel::Rustc.name() != name);
    assert(InvokedToolModel::RustDoc.name() != name);
    assert(InvokedToolModel::Cargo.name() != name);
    assert(InvokedToolModel::RustLLDB.name() != name);
    assert(InvokedToolModel::RustGDB.name() != name);
    assert(InvokedToolModel::RustGDBGUI.name() != name);
    assert(InvokedToolModel::Rls.name() != name);
    assert(InvokedToolModel::CargoClippy.name() != name);
    assert(InvokedToolModel::ClippyDriver.name() != name);
    assert(InvokedToolModel::CargoMiri.name() != name);
    assert(InvokedToolModel::RustAnalayzer.name() != name);
    assert(InvokedToolModel::RustFmt.name() != name);
    assert(InvokedToolModel::CargoFmt.name() != name);
    assert(InvokedToolModel::Rustup.name() != name);
    assert(InvokedToolModel::NixRustWrangler.name() != name);
    assert(InvokedToolModel::NixDevelopProxy.name() != name);
}

/// What tells the names of the known tools apart: their lengths, and a
/// character where two of them are equally long.
proof fn lemma_known_names()
    ensures
        "rustc"@.len() == 5 && "rustc"@[0] == 'r',
        "rustdoc"@.len() == 7 && "rustdoc"@[4] == 'd',
        "cargo"@.len() == 5 && "cargo"@[0] == 'c',
        "rust-lldb"@.len() == 9 && "rust-lldb"@[0] == 'r',
        "rust-gdb"@.len() == 8,
        "rust-gdbgui"@.len() == 11,
        "rls"@.len() == 3,
        "cargo-clippy"@.len() == 12,
        "clippy-driver"@.len() == 13 && "clippy-driver"@[0] == 'c',
        "cargo-miri"@.len() == 10,
        "rust-analyzer"@.len() == 13 && "rust-analyzer"@[0] == 'r',
        "rustfmt"@.len() == 7 && "rustfmt"@[4] == 'f',
        "cargo-fmt"@.len() == 9 && "cargo-fmt"@[0] == 'c',
        "rustup"@.len() == 6,
        "nix-rust-wrangler"@.len() == 17 && "nix-rust-wrangler"@[4] == 'r',
        "nix-develop-proxy"@.len() == 17 && "nix-develop-proxy"@[4] == 'd',
{
    reveal_strlit("rustc");
    reveal_strlit("rustdoc");
    reveal_strlit("cargo");
    reveal_strlit("rust-lldb");
    reveal_strlit("rust-gdb");
    reveal_strlit("rust-gdbgui");
    reveal_strlit("rls");
    reveal_strlit("cargo-clippy");
    reveal_strlit("clippy-driver");
    reveal_strlit("cargo-miri");
    reveal_strlit("rust-analyzer");
    reveal_strlit("rustfmt");
    reveal_strlit("cargo-fmt");
    reveal_strlit("rustup");
    reveal_strlit("nix-rust-wrangler");
    reveal_strlit("nix-develop-proxy");
}

/// Every known tool is found again under its own name: the names of the known
/// tools are pairwise different.
pub proof fn lemma_known_name_resolves(tool: InvokedToolModel)
    requires
        tool !is Other,
    ensures
        tool_named(tool.name()) == tool,
{
    lemma_known_names();
}

/// Where the name of the toolchain to use comes from.
#[derive(Debug, Clone, PartialEq, Eq)]
pub enum ToolchainOverride {
    /// No toolchain was named.
    Absent,
    FromEnv(String),
    FromArg(String),
}

pub ghost enum ToolchainOverrideModel {
    Absent,
    FromEnv(Seq<char>),
    FromArg(Seq<char>),
}

impl ToolchainOverrideModel {
    /// The toolchain's name, where one was given.
    pub open spec fn name(self) -> Option<Seq<char>> {
        match self {
            ToolchainOverrideModel::Absent => None,
            ToolchainOverrideModel::FromEnv(name) => Some(name),
            ToolchainOverrideModel::FromArg(name) => Some(name),
        }
    }
}

impl Model for ToolchainOverride {
    type M = ToolchainOverrideModel;

    open spec fn model(&self) -> ToolchainOverrideModel {
        match self {
            ToolchainOverride::Absent => ToolchainOverrideModel::Absent,
            ToolchainOverride::FromEnv(name) => ToolchainOverrideModel::FromEnv(name@),
            ToolchainOverride::FromArg(name) => ToolchainOverrideModel::FromArg(name@),
        }
    }
}

impl ToolchainOverride {
    /// The toolchain's name, where one was given.
    pub fn as_override_name(&self) -> (name: Option<&str>)
        ensures
            name.is_some() == self.model().name().is_some(),
            name matches Some(n) ==> Some(n@) == self.model().name(),
    {
        match self {
            ToolchainOverride::Absent => None,
            ToolchainOverride::FromEnv(name) => Some(name.as_str()),
            ToolchainOverride::FromArg(name) => Some(name.as_str()),
        }
    }
}

/// What the dispatcher was asked to do: which tool, with which toolchain, on
/// which arguments.
#[derive(Debug, Clone, PartialEq, Eq)]
pub struct Invocation {
    pub tool: InvokedTool,
    pub toolchain_override: ToolchainOverride,
    pub remaining_args: Vec<String>,
}

pub ghost struct InvocationModel {
    pub tool: InvokedToolModel,
    pub toolchain_override: ToolchainOverrideModel,
    pub remaining_args: Seq<Seq<char>>,
}

impl Model for Invocation {
    type M = InvocationModel;

    open spec fn model(&self) -> InvocationModel {
        InvocationModel {
            tool: self.tool.model(),
            toolchain_override: self.toolchain_override.model(),
            remaining_args: self.remaining_args.model(),
        }
    }
}

/// The tool that a token of the command line names: the tool that goes by the
/// token's file stem.
pub open spec fn resolved_tool(token: Seq<char>) -> Result<InvokedToolModel, ErrorModel> {
    match path_file_stem(token) {
        None => Err(ErrorModel::InvalidToolName),
        Some(stem) => Ok(tool_named(stem)),
    }
}

/// The toolchain that the second token asks for: what follows its leading `+`.
pub open spec fn arg_override(args: Seq<Seq<char>>) -> Option<Seq<char>> {
    if args.len() > 1 {
        after_marker(args[1], '+')
    } else {
        None
    }
}

/// The toolchain that one environment variable asks for.
pub open spec fn env_override(env: EnvModel, name: Seq<char>) -> Result<
    ToolchainOverrideModel,
    ErrorModel,
> {
    match text_var(env, name) {
        TextVar::Text(toolchain) => Ok(ToolchainOverrideModel::FromEnv(toolchain)),
        TextVar::NotPresent => Ok(ToolchainOverrideModel::Absent),
        TextVar::NotUnicode => Err(ErrorModel::ToolchainEnvNameNotUnicode),
    }
}

/// The one override that is carried forward. The argument goes before the
/// dispatcher's own variable, and that before the generic variable; a source
/// is only looked at when those before it name no toolchain.
pub open spec fn chosen_override(args: Seq<Seq<char>>, env: EnvModel) -> Result<
    ToolchainOverrideModel,
    ErrorModel,
> {
    match arg_override(args) {
        Some(toolchain) => Ok(ToolchainOverrideModel::FromArg(toolchain)),
        None => match env_override(env, TOOLCHAIN_VAR@) {
            Ok(ToolchainOverrideModel::Absent) => env_override(env, GENERIC_TOOLCHAIN_VAR@),
            found => found,
        },
    }
}

/// The invocation of `tool`, with the arguments from `rest` on left as they are.
pub open spec fn invocation_of(
    tool: InvokedToolModel,
    args: Seq<Seq<char>>,
    rest: int,
    env: EnvModel,
) -> Result<InvocationModel, ErrorModel> {
    match chosen_override(args, env) {
        Err(error) => Err(error),
        Ok(toolchain_override) => Ok(
            InvocationModel {
                tool,
                toolchain_override,
                remaining_args: args.subrange(rest, args.len() as int),
            },
        ),
    }
}

/// The invocation that an argument vector and an environment stand for.
///
/// The first token names the tool. A second token with a leading `+` names the
/// toolchain. Where the first token names the dispatcher itself, the token
/// after those names the tool, and must be there. What follows is passed on.
pub open spec fn derived(args: Seq<Seq<char>>, env: EnvModel) -> Result<
    InvocationModel,
    ErrorModel,
> {
    if args.len() == 0 {
        Err(ErrorModel::MissingArgv0)
    } else {
        match resolved_tool(args[0]) {
            Err(error) => Err(error),
            Ok(first) => {
                let skip: int = if arg_override(args) is Some {
                    2
                } else {
                    1
                };
                if first == InvokedToolModel::NixRustWrangler {
                    if args.len() <= skip {
                        Err(ErrorModel::MissingTool)
                    } else {
                        match resolved_tool(args[skip]) {
                            Err(error) => Err(error),
                            Ok(tool) => invocation_of(tool, args, skip + 1, env),
                        }
                    }
                } else {
                    invocation_of(first, args, skip, env)
                }
            },
        }
    }
}

/// The precedence of the sources of an override: the argument, then the
/// dispatcher's own variable, then the generic variable, then none.
pub proof fn lemma_override_precedence(args: Seq<Seq<char>>, env: EnvModel)
    ensures
        arg_override(args) matches Some(toolchain) ==> chosen_override(args, env) == Ok::<
            ToolchainOverrideModel,
            ErrorModel,
        >(ToolchainOverrideModel::FromArg(toolchain)),
        arg_override(args) is None ==> (text_var(env, TOOLCHAIN_VAR@) matches TextVar::Text(
            toolchain,
        ) ==> chosen_override(args, env) == Ok::<ToolchainOverrideModel, ErrorModel>(
            ToolchainOverrideModel::FromEnv(toolchain),
        )),
        arg_override(args) is None && text_var(env, TOOLCHAIN_VAR@) is NotPresent ==> (text_var(
            env,
            GENERIC_TOOLCHAIN_VAR@,
        ) matches TextVar::Text(toolchain) ==> chosen_override(args, env) == Ok::<
            ToolchainOverrideModel,
            ErrorModel,
        >(ToolchainOverrideModel::FromEnv(toolchain))),
        arg_override(args) is None && text_var(env, TOOLCHAIN_VAR@) is NotPresent && text_var(
            env,
            GENERIC_TOOLCHAIN_VAR@,
        ) is NotPresent ==> chosen_override(args, env) == Ok::<
            ToolchainOverrideModel,
            ErrorModel,
        >(ToolchainOverrideModel::Absent),
{
}

/// An invocation carries the chosen override, and passes on a tail of the
/// argument vector, untouched.
pub proof fn lemma_derived_passes_on(args: Seq<Seq<char>>, env: EnvModel)
    ensures
        derived(args, env) matches Ok(invocation) ==> {
            &&& chosen_override(args, env) == Ok::<ToolchainOverrideModel, ErrorModel>(
                invocation.toolchain_override,
            )
            &&& exists|rest: int|
                1 <= rest <= 3 && rest <= args.len() && invocation.remaining_args
                    == #[trigger] args.subrange(rest, args.len() as int)
        },
{
    if derived(args, env) is Ok {
        let skip: int = if arg_override(args) is Some {
            2
        } else {
            1
        };
        let first = resolved_tool(args[0])->Ok_0;
        let rest = if first == InvokedToolModel::NixRustWrangler {
            skip + 1
        } else {
            skip
        };
        assert(derived(args, env)->Ok_0.remaining_args == args.subrange(rest, args.len() as int));
    }
}

/// Called under the name of a tool, the dispatcher stands in for that tool:
/// where the file stem of the first token is the name of a known tool other
/// than the dispatcher itself, that tool is the invocation's tool, and where
/// no known tool goes by the stem, the tool is `Other` with the stem as it is.
pub proof fn lemma_invoked_under_a_name(args: Seq<Seq<char>>, env: EnvModel, stem: Seq<char>)
    requires
        args.len() > 0,
        path_file_stem(args[0]) == Some(stem),
        stem != InvokedToolModel::NixRustWrangler.name(),
        derived(args, env) is Ok,
    ensures
        derived(args, env)->Ok_0.tool == tool_named(stem),
        derived(args, env)->Ok_0.tool.name() == stem,
        forall|tool: InvokedToolModel|
            tool !is Other && #[trigger] tool.name() == stem ==> derived(args, env)->Ok_0.tool
                == tool,
        (forall|tool: InvokedToolModel| tool !is Other ==> #[trigger] tool.name() != stem)
            ==> derived(args, env)->Ok_0.tool == InvokedToolModel::Other(stem),
{
    assert(tool_named(stem) != InvokedToolModel::NixRustWrangler);
    assert forall|tool: InvokedToolModel| tool !is Other && #[trigger] tool.name() == stem implies derived(
        args,
        env,
    )->Ok_0.tool == tool by {
        lemma_known_name_resolves(tool);
    }
    if forall|tool: InvokedToolModel| tool !is Other ==> #[trigger] tool.name() != stem {
        lemma_unknown_name_is_other(stem);
    }
}

impl Invocation {
    /// Derives the invocation from the argument vector and the environment.
    pub fn derive(args: &Vec<String>, env: &Environment) -> (invocation: Result<Self, Error>)
        ensures
            invocation.model() == derived(args.model(), env.model()),
    {
        let n = args.len();
        if n == 0 {
            return Err(Error::MissingArgv0);
        }
        let first = match Self::self_arg_to_tool(args[0].as_str()) {
            Err(error) => {
                return Err(error);
            },
            Ok(tool) => tool,
        };
        let from_arg = if n > 1 {
            strip_marker(args[1].as_str(), '+')
        } else {
            None
        };
        let skip: usize = if from_arg.is_some() {
            2
        } else {
            1
        };
        let (tool, rest): (InvokedTool, usize) = if first.is_dispatcher() {
            if n <= skip {
                return Err(Error::MissingTool);
            }
            match Self::self_arg_to_tool(args[skip].as_str()) {
                Err(error) => {
                    return Err(error);
                },
                Ok(named) => (named, skip + 1),
            }
        } else {
            (first, skip)
        };
        let toolchain_override = match from_arg {
            Some(toolchain) => ToolchainOverride::FromArg(toolchain),
            None => match Self::toolchain_override_from_env(env, TOOLCHAIN_VAR) {
                Err(error) => {
                    return Err(error);
                },
                Ok(ToolchainOverride::Absent) => match Self::toolchain_override_from_env(
                    env,
                    GENERIC_TOOLCHAIN_VAR,
                ) {
                    Err(error) => {
                        return Err(error);
                    },
                    Ok(found) => found,
                },
                Ok(found) => found,
            },
        };
        let mut remaining_args: Vec<String> = Vec::new();
        let mut i: usize = rest;
        while i < n
            invariant
                rest <= i <= n,
                n == args.len(),
                n == args.model().len(),
                remaining_args.model() == args.model().subrange(rest as int, i as int),
            decreases n - i,
        {
            let ghost before = remaining_args.model();
            remaining_args.push(args[i].clone());
            assert(remaining_args.model() =~= before.push(args.model()[i as int]));
            assert(remaining_args.model() =~= args.model().subrange(rest as int, i + 1));
            i = i + 1;
        }
        Ok(Invocation { tool, toolchain_override, remaining_args })
    }

    /// The tool that a token of the command line names.
    pub fn self_arg_to_tool(self_arg: &str) -> (tool: Result<InvokedTool, Error>)
        ensures
            tool.model() == resolved_tool(self_arg@),
    {
        match file_stem(self_arg) {
            None => Err(Error::InvalidToolName),
            Some(stem) => Ok(InvokedTool::from_name(stem.as_str())),
        }
    }

    /// The toolchain that the environment variable `env_name` asks for.
    pub fn toolchain_override_from_env(env: &Environment, env_name: &str) -> (found: Result<
        ToolchainOverride,
        Error,
    >)
        ensures
            found.model() == env_override(env.model(), env_name@),
    {
        match env.var(env_name) {
            Ok(toolchain) => Ok(ToolchainOverride::FromEnv(owned(toolchain))),
            Err(VarError::NotPresent) => Ok(ToolchainOverride::Absent),
            Err(VarError::NotUnicode) => Err(Error::ToolchainEnvNameNotUnicode),
        }
    }
}

} // verus!
