use wrangler::environment::{Environment, Platform};
use wrangler::error::Error;
use wrangler::invocation::Invocation;
use wrangler::invoker::external::{CommandLine, ExternalInvoker};
use wrangler::invoker::{next_recursion_count, recursion_limit_exceeded, ToolInvoker};
use wrangler::world::{Answer, Observations, PathStatus, Query, Step};

fn texts(items: &[&str]) -> Vec<String> {
    items.iter().map(|t| t.to_string()).collect()
}

fn invocation(tokens: &[&str]) -> Invocation {
    Invocation::derive(&texts(tokens), &Environment::new(Platform::Other)).unwrap()
}

fn env_of(platform: Platform, vars: &[(&str, &str)]) -> Environment {
    let mut env = Environment::new(platform);
    for (name, text) in vars {
        env.set_text(name, text);
    }
    env
}

fn set(command: &CommandLine, name: &str) -> Option<String> {
    command.envs.get_text(name).cloned()
}

fn names(command: &CommandLine) -> Vec<String> {
    let mut names: Vec<String> = command.envs.entries().iter().map(|(k, _)| k.clone()).collect();
    names.sort();
    names.dedup();
    names
}

fn configure(dir: Option<&str>, env: &Environment) -> CommandLine {
    let mut command = CommandLine::new("/tc/bin/rustc".to_string());
    ToolInvoker::configure_command_for_toolchain(dir, &mut command, env);
    command
}

fn stat(is_file: bool, is_symlink: bool, canonical: Result<&str, &str>) -> Answer {
    Answer::Status(PathStatus {
        exists: is_file,
        is_file,
        is_dir: false,
        is_symlink,
        canonical: canonical.map(|s| s.to_string()).map_err(|s| s.to_string()),
    })
}

#[test]
fn counter_goes_up_by_one() {
    assert_eq!(next_recursion_count(0), Some(1));
    assert_eq!(next_recursion_count(19), Some(20));
    assert_eq!(next_recursion_count(20), Some(21));
    assert_eq!(next_recursion_count(u32::MAX - 1), Some(u32::MAX));
    assert_eq!(next_recursion_count(u32::MAX), None);
}

#[test]
fn counter_at_the_ceiling_stops_the_process() {
    assert!(!recursion_limit_exceeded(0));
    assert!(!recursion_limit_exceeded(19));
    assert!(recursion_limit_exceeded(20));
    assert!(recursion_limit_exceeded(21));
    assert!(recursion_limit_exceeded(u32::MAX));
}

#[test]
fn library_path_gets_the_toolchain_in_front() {
    let command = configure(Some("/tc"), &env_of(Platform::Other, &[]));
    assert_eq!(set(&command, "LD_LIBRARY_PATH"), Some("/tc/lib".to_string()));

    let command =
        configure(Some("/tc"), &env_of(Platform::Other, &[("LD_LIBRARY_PATH", "/a:/b")]));
    assert_eq!(set(&command, "LD_LIBRARY_PATH"), Some("/tc/lib:/a:/b".to_string()));

    let command = configure(Some("/tc"), &env_of(Platform::Other, &[("LD_LIBRARY_PATH", "")]));
    assert_eq!(set(&command, "LD_LIBRARY_PATH"), Some("/tc/lib:".to_string()));
}

#[test]
fn other_platforms_get_no_conventional_directories() {
    let command = configure(Some("/tc"), &env_of(Platform::Other, &[("HOME", "/home/u")]));
    assert_eq!(set(&command, "LD_LIBRARY_PATH"), Some("/tc/lib".to_string()));
    assert_eq!(set(&command, "DYLD_FALLBACK_LIBRARY_PATH"), None);
}

#[test]
fn fallback_platform_gets_the_conventional_directories_when_the_path_was_unset() {
    let command = configure(Some("/tc"), &env_of(Platform::MacOs, &[("HOME", "/Users/u")]));
    assert_eq!(
        set(&command, "DYLD_FALLBACK_LIBRARY_PATH"),
        Some("/tc/lib:/Users/u/lib:/usr/local/lib:/usr/lib".to_string())
    );
    assert_eq!(set(&command, "LD_LIBRARY_PATH"), None);

    let command = configure(Some("/tc"), &env_of(Platform::MacOs, &[]));
    assert_eq!(
        set(&command, "DYLD_FALLBACK_LIBRARY_PATH"),
        Some("/tc/lib:/usr/local/lib:/usr/lib".to_string())
    );
}

#[test]
fn fallback_platform_keeps_a_path_that_was_set() {
    let env = env_of(
        Platform::MacOs,
        &[("HOME", "/Users/u"), ("DYLD_FALLBACK_LIBRARY_PATH", "/x:/y")],
    );
    let command = configure(Some("/tc"), &env);
    assert_eq!(set(&command, "DYLD_FALLBACK_LIBRARY_PATH"), Some("/tc/lib:/x:/y".to_string()));
}

#[test]
fn executable_search_path_is_left_alone() {
    let env = env_of(Platform::Other, &[("PATH", "/usr/bin"), ("LD_LIBRARY_PATH", "/a")]);
    let command = configure(Some("/tc"), &env);
    assert_eq!(set(&command, "PATH"), None);
    assert_eq!(names(&command), texts(&["LD_LIBRARY_PATH", "RUST_RECURSION_COUNT"]));
    assert_eq!(command.program, "/tc/bin/rustc");
    assert!(command.args.is_empty());
}

#[test]
fn counter_is_written_one_higher() {
    let command = configure(Some("/tc"), &env_of(Platform::Other, &[]));
    assert_eq!(set(&command, "RUST_RECURSION_COUNT"), Some("1".to_string()));
    let command = configure(None, &env_of(Platform::Other, &[("RUST_RECURSION_COUNT", "7")]));
    assert_eq!(set(&command, "RUST_RECURSION_COUNT"), Some("8".to_string()));
    assert_eq!(names(&command), texts(&["RUST_RECURSION_COUNT"]));
    let command = configure(None, &env_of(Platform::Other, &[("RUST_RECURSION_COUNT", "junk")]));
    assert_eq!(set(&command, "RUST_RECURSION_COUNT"), Some("1".to_string()));
    let command =
        configure(None, &env_of(Platform::Other, &[("RUST_RECURSION_COUNT", "4294967294")]));
    assert_eq!(set(&command, "RUST_RECURSION_COUNT"), Some("4294967295".to_string()));
}

#[test]
fn counter_that_would_overflow_is_left_unset() {
    let command =
        configure(Some("/tc"), &env_of(Platform::Other, &[("RUST_RECURSION_COUNT", "4294967295")]));
    assert_eq!(set(&command, "RUST_RECURSION_COUNT"), None);
    assert_eq!(names(&command), texts(&["LD_LIBRARY_PATH"]));
}

#[test]
fn invoker_of_a_tool_and_its_toolchain() {
    let env = env_of(Platform::Other, &[("RUST_RECURSION_COUNT", "2")]);
    let invoker = ToolInvoker::from_tool_and_toolchain_dir("/tc/bin/cargo", "/tc", &env);
    let command = invoker.dispatch(&texts(&["build", "--release"]));
    assert_eq!(command.program, "/tc/bin/cargo");
    assert_eq!(command.args, texts(&["build", "--release"]));
    assert_eq!(command.argv(), texts(&["/tc/bin/cargo", "build", "--release"]));
    assert_eq!(set(&command, "LD_LIBRARY_PATH"), Some("/tc/lib".to_string()));
    assert_eq!(set(&command, "RUST_RECURSION_COUNT"), Some("3".to_string()));
    assert_eq!(set(&command, "NIX_RUST_WRANGLER_FLAKE_PATH"), None);
}

#[test]
fn invoker_of_an_executable_without_toolchain() {
    let env = env_of(Platform::Other, &[("LD_LIBRARY_PATH", "/a")]);
    let command = ToolInvoker::from_executable("/usr/bin/rustc", &env).dispatch(&texts(&["-V"]));
    assert_eq!(command.program, "/usr/bin/rustc");
    assert_eq!(command.args, texts(&["-V"]));
    assert_eq!(names(&command), texts(&["RUST_RECURSION_COUNT"]));
}

#[test]
fn invoker_through_another_command_names_the_tool_last() {
    let env = env_of(Platform::Other, &[("RUST_RECURSION_COUNT", "4")]);
    let mut partial = CommandLine::new("/bin/nix".to_string());
    partial.arg("develop".to_string());
    partial.env("NIX_RUST_WRANGLER_INSIDE_NIX_DEVELOP", "1".to_string());
    let invoker = ToolInvoker::from_command_proxy(partial, &invocation(&["cargo", "test"]), &env);
    let command = invoker.dispatch(&texts(&["test"]));
    assert_eq!(command.argv(), texts(&["/bin/nix", "develop", "cargo", "test"]));
    assert_eq!(set(&command, "RUST_RECURSION_COUNT"), Some("5".to_string()));
    assert_eq!(set(&command, "NIX_RUST_WRANGLER_INSIDE_NIX_DEVELOP"), Some("1".to_string()));
}

#[test]
fn later_value_of_a_variable_replaces_the_earlier() {
    let mut command = CommandLine::new("p".to_string());
    command.env("A", "1".to_string());
    command.env("B", "2".to_string());
    command.env("A", "3".to_string());
    assert_eq!(set(&command, "A"), Some("3".to_string()));
    assert_eq!(set(&command, "B"), Some("2".to_string()));
    assert_eq!(set(&command, "C"), None);
}

#[test]
fn executable_in_a_directory_is_taken_in_canonical_form() {
    let mut obs = Observations::new();
    match ExternalInvoker::new_at(&obs, "/tc/bin", "rustc") {
        Step::Need(Query::Stat(path)) => assert_eq!(path, "/tc/bin/rustc"),
        other => panic!("{:?}", other),
    }
    obs.record(Query::Stat("/tc/bin/rustc".to_string()), stat(true, true, Ok("/store/rustc")));
    match ExternalInvoker::new_at(&obs, "/tc/bin", "rustc") {
        Step::Need(Query::Stat(path)) => assert_eq!(path, "/store/rustc"),
        other => panic!("{:?}", other),
    }
    obs.record(Query::Stat("/store/rustc".to_string()), stat(true, false, Ok("/store/rustc")));
    match ExternalInvoker::new_at(&obs, "/tc/bin", "rustc") {
        Step::Done(Some(invoker)) => {
            let command = invoker.into_command();
            assert_eq!(command.program, "/store/rustc");
            assert!(command.args.is_empty());
            assert!(command.envs.is_empty());
        }
        other => panic!("{:?}", other),
    }
}

#[test]
fn executable_without_canonical_form_has_to_be_a_file_or_a_link() {
    let mut obs = Observations::new();
    obs.record(Query::Stat("/tc/bin/rustc".to_string()), stat(false, true, Err("loop")));
    match ExternalInvoker::new_at(&obs, "/tc/bin", "rustc") {
        Step::Done(Some(invoker)) => assert_eq!(invoker.into_command().program, "/tc/bin/rustc"),
        other => panic!("{:?}", other),
    }
    let mut obs = Observations::new();
    obs.record(Query::Stat("/tc/bin/rustc".to_string()), stat(false, false, Err("not found")));
    match ExternalInvoker::new_at(&obs, "/tc/bin", "rustc") {
        Step::Done(None) => {}
        other => panic!("{:?}", other),
    }
}

#[test]
fn directory_is_no_executable() {
    let mut obs = Observations::new();
    obs.record(
        Query::Stat("/tc/bin/rustc".to_string()),
        Answer::Status(PathStatus {
            exists: true,
            is_file: false,
            is_dir: true,
            is_symlink: false,
            canonical: Ok("/tc/bin/rustc".to_string()),
        }),
    );
    match ExternalInvoker::new_at(&obs, "/tc/bin", "rustc") {
        Step::Done(None) => {}
        other => panic!("{:?}", other),
    }
}

#[test]
fn invoker_from_a_toolchain_directory_looks_in_its_bin() {
    let env = env_of(Platform::Other, &[]);
    let inv = invocation(&["/usr/bin/cargo-clippy", "--fix"]);
    let mut obs = Observations::new();
    match ToolInvoker::from_toolchain_dir(&obs, "/tc", &inv, &env) {
        Step::Need(Query::Stat(path)) => assert_eq!(path, "/tc/bin/cargo-clippy"),
        other => panic!("{:?}", other),
    }
    obs.record(
        Query::Stat("/tc/bin/cargo-clippy".to_string()),
        stat(true, false, Ok("/tc/bin/cargo-clippy")),
    );
    match ToolInvoker::from_toolchain_dir(&obs, "/tc", &inv, &env) {
        Step::Done(Ok(invoker)) => {
            let command = invoker.dispatch(&inv.remaining_args);
            assert_eq!(command.argv(), texts(&["/tc/bin/cargo-clippy", "--fix"]));
            assert_eq!(set(&command, "LD_LIBRARY_PATH"), Some("/tc/lib".to_string()));
            assert_eq!(set(&command, "RUST_RECURSION_COUNT"), Some("1".to_string()));
        }
        other => panic!("{:?}", other),
    }
}

#[test]
fn toolchain_directory_without_the_tool_is_an_error() {
    let env = env_of(Platform::Other, &[]);
    let inv = invocation(&["rustfmt"]);
    let mut obs = Observations::new();
    obs.record(Query::Stat("/tc/bin/rustfmt".to_string()), stat(false, false, Err("not found")));
    match ToolInvoker::from_toolchain_dir(&obs, "/tc", &inv, &env) {
        Step::Done(Err(error)) => assert_eq!(
            error,
            Error::ToolchainDoesNotProvideTool {
                path: "/tc".to_string(),
                tool: "rustfmt".to_string()
            }
        ),
        other => panic!("{:?}", other),
    }
}
