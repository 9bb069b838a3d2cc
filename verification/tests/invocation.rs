use wrangler::environment::{EnvValue, Environment, Platform};
use wrangler::error::Error;
use wrangler::invocation::{Invocation, InvokedTool, ToolchainOverride};

fn args(tokens: &[&str]) -> Vec<String> {
    tokens.iter().map(|t| t.to_string()).collect()
}

fn env(vars: &[(&str, &str)]) -> Environment {
    let mut env = Environment::new(Platform::Other);
    for (name, text) in vars {
        env.set_text(name, text);
    }
    env
}

#[test]
fn every_known_name_gives_its_tool() {
    let known = [
        ("rustc", InvokedTool::Rustc),
        ("rustdoc", InvokedTool::RustDoc),
        ("cargo", InvokedTool::Cargo),
        ("rust-lldb", InvokedTool::RustLLDB),
        ("rust-gdb", InvokedTool::RustGDB),
        ("rust-gdbgui", InvokedTool::RustGDBGUI),
        ("rls", InvokedTool::Rls),
        ("cargo-clippy", InvokedTool::CargoClippy),
        ("clippy-driver", InvokedTool::ClippyDriver),
        ("cargo-miri", InvokedTool::CargoMiri),
        ("rust-analyzer", InvokedTool::RustAnalayzer),
        ("rustfmt", InvokedTool::RustFmt),
        ("cargo-fmt", InvokedTool::CargoFmt),
        ("rustup", InvokedTool::Rustup),
        ("nix-develop-proxy", InvokedTool::NixDevelopProxy),
    ];
    for (name, tool) in known {
        let path = format!("/usr/local/bin/{}", name);
        let invocation = Invocation::derive(&args(&[&path, "--version"]), &env(&[])).unwrap();
        assert_eq!(invocation.tool, tool);
        assert_eq!(invocation.tool.to_executable_name(), name);
        assert_eq!(invocation.tool.to_name(), name);
        assert_eq!(invocation.remaining_args, args(&["--version"]));
        assert_eq!(InvokedTool::from_name(name), tool);
    }
}

#[test]
fn unknown_name_is_kept_as_it_is() {
    let invocation = Invocation::derive(&args(&["/opt/bin/Rustc-ünïcode"]), &env(&[])).unwrap();
    assert_eq!(invocation.tool, InvokedTool::Other("Rustc-ünïcode".to_string()));
    assert_eq!(invocation.tool.to_executable_name(), "Rustc-ünïcode");
    assert!(invocation.remaining_args.is_empty());
}

#[test]
fn names_are_matched_exactly() {
    assert_eq!(InvokedTool::from_name("Cargo"), InvokedTool::Other("Cargo".to_string()));
    assert_eq!(InvokedTool::from_name("cargo "), InvokedTool::Other("cargo ".to_string()));
    assert_eq!(InvokedTool::from_name(""), InvokedTool::Other(String::new()));
}

#[test]
fn file_stem_names_the_tool() {
    let invocation = Invocation::derive(&args(&["C:/tools/cargo.exe", "build"]), &env(&[])).unwrap();
    assert_eq!(invocation.tool, InvokedTool::Cargo);
    assert_eq!(invocation.remaining_args, args(&["build"]));
}

#[test]
fn empty_argument_vector_is_refused() {
    assert_eq!(Invocation::derive(&args(&[]), &env(&[])), Err(Error::MissingArgv0));
}

#[test]
fn token_without_stem_is_refused() {
    assert_eq!(Invocation::derive(&args(&[""]), &env(&[])), Err(Error::InvalidToolName));
    assert_eq!(Invocation::derive(&args(&["/"]), &env(&[])), Err(Error::InvalidToolName));
    assert_eq!(Invocation::derive(&args(&["bin/.."]), &env(&[])), Err(Error::InvalidToolName));
    assert_eq!(
        Invocation::derive(&args(&["nix-rust-wrangler", ".."]), &env(&[])),
        Err(Error::InvalidToolName)
    );
}

#[test]
fn leading_plus_names_the_toolchain() {
    let invocation =
        Invocation::derive(&args(&["cargo", "+nightly", "build", "+stable"]), &env(&[])).unwrap();
    assert_eq!(invocation.tool, InvokedTool::Cargo);
    assert_eq!(invocation.toolchain_override, ToolchainOverride::FromArg("nightly".to_string()));
    assert_eq!(invocation.toolchain_override.as_override_name(), Some("nightly"));
    assert_eq!(invocation.remaining_args, args(&["build", "+stable"]));
}

#[test]
fn lone_plus_names_the_empty_toolchain() {
    let invocation = Invocation::derive(&args(&["rustc", "+"]), &env(&[])).unwrap();
    assert_eq!(invocation.toolchain_override, ToolchainOverride::FromArg(String::new()));
    assert!(invocation.remaining_args.is_empty());
}

#[test]
fn dispatcher_name_takes_the_tool_from_the_next_token() {
    let invocation =
        Invocation::derive(&args(&["/bin/nix-rust-wrangler", "rustfmt", "--check"]), &env(&[]))
            .unwrap();
    assert_eq!(invocation.tool, InvokedTool::RustFmt);
    assert_eq!(invocation.toolchain_override, ToolchainOverride::Absent);
    assert_eq!(invocation.toolchain_override.as_override_name(), None);
    assert_eq!(invocation.remaining_args, args(&["--check"]));
}

#[test]
fn dispatcher_name_with_override_takes_the_tool_from_the_third_token() {
    let invocation = Invocation::derive(
        &args(&["nix-rust-wrangler", "+beta", "cargo", "test", "--all"]),
        &env(&[]),
    )
    .unwrap();
    assert_eq!(invocation.tool, InvokedTool::Cargo);
    assert_eq!(invocation.toolchain_override, ToolchainOverride::FromArg("beta".to_string()));
    assert_eq!(invocation.remaining_args, args(&["test", "--all"]));
}

#[test]
fn dispatcher_name_without_tool_is_refused() {
    assert_eq!(
        Invocation::derive(&args(&["nix-rust-wrangler"]), &env(&[])),
        Err(Error::MissingTool)
    );
    assert_eq!(
        Invocation::derive(&args(&["nix-rust-wrangler", "+nightly"]), &env(&[])),
        Err(Error::MissingTool)
    );
}

#[test]
fn dispatcher_named_twice_stays_the_dispatcher() {
    let invocation =
        Invocation::derive(&args(&["nix-rust-wrangler", "nix-rust-wrangler", "x"]), &env(&[]))
            .unwrap();
    assert_eq!(invocation.tool, InvokedTool::NixRustWrangler);
    assert_eq!(invocation.remaining_args, args(&["x"]));
}

#[test]
fn argument_goes_before_both_variables() {
    let e = env(&[("NIX_RUST_WRANGLER_TOOLCHAIN", "one"), ("RUSTUP_TOOLCHAIN", "two")]);
    let invocation = Invocation::derive(&args(&["cargo", "+zero"]), &e).unwrap();
    assert_eq!(invocation.toolchain_override, ToolchainOverride::FromArg("zero".to_string()));
}

#[test]
fn dispatcher_variable_goes_before_the_generic_one() {
    let e = env(&[("NIX_RUST_WRANGLER_TOOLCHAIN", "one"), ("RUSTUP_TOOLCHAIN", "two")]);
    let invocation = Invocation::derive(&args(&["cargo", "build"]), &e).unwrap();
    assert_eq!(invocation.toolchain_override, ToolchainOverride::FromEnv("one".to_string()));
    assert_eq!(invocation.remaining_args, args(&["build"]));
}

#[test]
fn generic_variable_counts_when_alone() {
    let e = env(&[("RUSTUP_TOOLCHAIN", "two")]);
    let invocation = Invocation::derive(&args(&["cargo"]), &e).unwrap();
    assert_eq!(invocation.toolchain_override, ToolchainOverride::FromEnv("two".to_string()));
}

#[test]
fn no_source_gives_no_override() {
    let invocation = Invocation::derive(&args(&["cargo"]), &env(&[("PATH", "/bin")])).unwrap();
    assert_eq!(invocation.toolchain_override, ToolchainOverride::Absent);
}

#[test]
fn variable_that_is_not_unicode_is_an_error_only_when_consulted() {
    let mut e = env(&[("NIX_RUST_WRANGLER_TOOLCHAIN", "one")]);
    e.set(
        "RUSTUP_TOOLCHAIN".to_string(),
        EnvValue { text: "\u{fffd}".to_string(), unicode: false },
    );
    let invocation = Invocation::derive(&args(&["cargo"]), &e).unwrap();
    assert_eq!(invocation.toolchain_override, ToolchainOverride::FromEnv("one".to_string()));

    let mut e = env(&[]);
    e.set(
        "RUSTUP_TOOLCHAIN".to_string(),
        EnvValue { text: "\u{fffd}".to_string(), unicode: false },
    );
    assert_eq!(
        Invocation::derive(&args(&["cargo"]), &e),
        Err(Error::ToolchainEnvNameNotUnicode)
    );
    let invocation = Invocation::derive(&args(&["cargo", "+stable"]), &e).unwrap();
    assert_eq!(invocation.toolchain_override, ToolchainOverride::FromArg("stable".to_string()));

    let mut e = env(&[("RUSTUP_TOOLCHAIN", "two")]);
    e.set(
        "NIX_RUST_WRANGLER_TOOLCHAIN".to_string(),
        EnvValue { text: "\u{fffd}".to_string(), unicode: false },
    );
    assert_eq!(
        Invocation::derive(&args(&["cargo"]), &e),
        Err(Error::ToolchainEnvNameNotUnicode)
    );
}

#[test]
fn dispatcher_goes_by_its_own_name() {
    assert_eq!(InvokedTool::from_name("nix-rust-wrangler"), InvokedTool::NixRustWrangler);
    assert_eq!(InvokedTool::NixRustWrangler.to_executable_name(), "nix-rust-wrangler");
    assert_eq!(InvokedTool::NixRustWrangler.to_name(), "nix-rust-wrangler");
    assert!(InvokedTool::NixRustWrangler.is_dispatcher());
    assert!(!InvokedTool::Cargo.is_dispatcher());
    assert!(InvokedTool::Cargo.is_cargo());
    assert!(!InvokedTool::Other("cargo".to_string()).is_cargo());
    assert!(InvokedTool::NixDevelopProxy.is_develop_proxy());
}

#[test]
fn remaining_arguments_are_a_tail_of_the_argument_vector() {
    let all = args(&["nix-rust-wrangler", "+t", "rustc", "a", "+b", "", "--", "nix-develop-proxy"]);
    let invocation = Invocation::derive(&all, &env(&[])).unwrap();
    assert_eq!(invocation.remaining_args, all[3..].to_vec());
    let all = args(&["rustc", "a", "+b", ""]);
    let invocation = Invocation::derive(&all, &env(&[])).unwrap();
    assert_eq!(invocation.remaining_args, all[1..].to_vec());
    assert_eq!(invocation.toolchain_override, ToolchainOverride::Absent);
}
