use std::collections::HashMap;
use wrangler::collection::ToolchainCollectionMeta;
use wrangler::driver::{
    find_nix, invoker_for_system_path, resolve, AmbientTool, Failure, SearchPolicy,
};
use wrangler::environment::{Environment, Platform};
use wrangler::error::{CollectionError, Error, FlakeEvalError};
use wrangler::invocation::Invocation;
use wrangler::invoker::external::CommandLine;
use wrangler::nix::config::{
    FlakeEmbeddedConfig, FlakeEmbeddedConfigAttr, FlakeInspection, FlakeValueType,
};
use wrangler::nix::flake::FlakeBuildOutput;
use wrangler::nix::proxy::run_develop_proxy;
use wrangler::table::Keyed;
use wrangler::world::{Answer, Observations, PathStatus, ProcessOutput, Query, Step};

fn texts(items: &[&str]) -> Vec<String> {
    items.iter().map(|t| t.to_string()).collect()
}

/// A made-up machine.
struct Machine {
    dirs: Vec<&'static str>,
    files: Vec<&'static str>,
    links: HashMap<&'static str, &'static str>,
    cwd: &'static str,
    own_executable: &'static str,
    features: &'static str,
    config: Option<(bool, bool)>,
    eval_fails: bool,
    host_platform: Option<&'static str>,
    asked: std::cell::RefCell<Vec<Query>>,
}

impl Machine {
    fn new() -> Self {
        Machine {
            dirs: Vec::new(),
            files: Vec::new(),
            links: HashMap::new(),
            cwd: "/work/project",
            own_executable: "/opt/w/bin/nix-rust-wrangler",
            features: "nix-command flakes",
            config: None,
            eval_fails: false,
            host_platform: None,
            asked: std::cell::RefCell::new(Vec::new()),
        }
    }

    fn status(&self, path: &str) -> PathStatus {
        let is_symlink = self.links.contains_key(path);
        let target = self.links.get(path).copied().unwrap_or(path);
        let is_dir = self.dirs.contains(&target);
        let is_file = self.files.contains(&target);
        PathStatus {
            exists: is_dir || is_file,
            is_file,
            is_dir,
            is_symlink,
            canonical: if is_dir || is_file {
                Ok(target.to_string())
            } else {
                Err("not found".to_string())
            },
        }
    }

    fn answer(&self, query: &Query) -> Answer {
        self.asked.borrow_mut().push(query.clone());
        let ok = |stdout: &[u8]| {
            Answer::Output(Ok(ProcessOutput {
                status: Some(0),
                stdout: stdout.to_vec(),
                stderr: Vec::new(),
            }))
        };
        match query {
            Query::Stat(path) => Answer::Status(self.status(path)),
            Query::CurrentDir => Answer::Location(Ok(self.cwd.to_string())),
            Query::CurrentExe => Answer::Location(Ok(self.own_executable.to_string())),
            Query::Run(command) => match command[1].as_str() {
                "config" => ok(self.features.as_bytes()),
                "eval" => {
                    assert_eq!(
                        command[2..],
                        texts(&["--json", "/work/project#.", "--apply", "the expression"])[..]
                    );
                    if self.eval_fails {
                        Answer::Output(Ok(ProcessOutput {
                            status: Some(1),
                            stdout: Vec::new(),
                            stderr: b"error: syntax".to_vec(),
                        }))
                    } else {
                        ok(b"inspection")
                    }
                }
                "build" => ok(b"built"),
                other => panic!("the tool has no subcommand {}", other),
            },
            Query::DecodeInspection(bytes) => {
                assert_eq!(bytes, b"inspection");
                let (ignore, shell) = self.config.unwrap_or((false, false));
                Answer::Inspection(Ok(FlakeInspection {
                    default_dev_shell: if shell { Some(FlakeValueType::Derivation) } else { None },
                    rust_wrangler_dev_shell: None,
                    config: self.config.map(|_| FlakeEmbeddedConfigAttr {
                        at: "cfg".to_string(),
                        value: FlakeEmbeddedConfig {
                            ignore,
                            toolchain: Some(FlakeValueType::Derivation),
                            toolchains: Keyed::new(),
                        },
                    }),
                }))
            }
            Query::DecodeBuild(bytes) => {
                assert_eq!(bytes, b"built");
                let mut outputs = Keyed::new();
                outputs.put("out".to_string(), "/nix/store/tc".to_string());
                Answer::Built(Ok(vec![FlakeBuildOutput {
                    drv_path: "/nix/store/tc.drv".to_string(),
                    outputs,
                }]))
            }
            Query::LoadCollectionMeta(path) => {
                assert_eq!(path, "/c/collection.json");
                Answer::CollectionMeta(match self.host_platform {
                    Some(host) => Ok(ToolchainCollectionMeta { host_platform: host.to_string() }),
                    None => Err(CollectionError::Io("no such file".to_string())),
                })
            }
        }
    }

    fn settle<T>(&self, decide: impl Fn(&Observations) -> Step<T>) -> T {
        let mut obs = Observations::new();
        for _ in 0..200 {
            match decide(&obs) {
                Step::Done(value) => return value,
                Step::Need(query) => {
                    assert!(!obs.knows(&query), "{:?} was asked for twice", query);
                    let answer = self.answer(&query);
                    assert!(obs.record(query, answer));
                }
            }
        }
        panic!("the decision did not come to an end");
    }

    fn run(&self, tokens: &[&str], vars: &[(&str, &str)]) -> Result<CommandLine, Failure> {
        self.run_with(tokens, vars, SearchPolicy::Permissive)
    }

    fn fail(&self, tokens: &[&str], vars: &[(&str, &str)]) -> Failure {
        self.run(tokens, vars).unwrap_err()
    }

    fn run_with(
        &self,
        tokens: &[&str],
        vars: &[(&str, &str)],
        policy: SearchPolicy,
    ) -> Result<CommandLine, Failure> {
        let env = env_of(vars);
        let args = texts(tokens);
        let invocation = Invocation::derive(&args, &env).unwrap();
        self.settle(|obs| resolve(&invocation, &env, obs, Some(tokens[0]), "the expression", policy))
    }
}

fn env_of(vars: &[(&str, &str)]) -> Environment {
    let mut env = Environment::new(Platform::Other);
    for (name, text) in vars {
        env.set_text(name, text);
    }
    env
}

fn set(command: &CommandLine, name: &str) -> Option<String> {
    command.envs.get_text(name).cloned()
}

#[test]
fn counter_at_twenty_stops_before_anything_is_looked_at() {
    let machine = Machine::new();
    for count in ["20", "21", "4294967295", "+20", "0020"] {
        assert_eq!(machine.fail(&["cargo", "build"], &[("RUST_RECURSION_COUNT", count), ("PATH", "/bin")]), Failure::RecursionLimit);
        assert_eq!(machine.fail(
                &["nix-rust-wrangler", "nix-develop-proxy", "true"],
                &[("RUST_RECURSION_COUNT", count)]
            ), Failure::RecursionLimit);
    }
    assert!(machine.asked.borrow().is_empty());
}

#[test]
fn counter_below_twenty_lets_the_process_go_on() {
    let mut machine = Machine::new();
    machine.host_platform = Some("h");
    machine.dirs = vec!["/c/stable"];
    machine.files = vec!["/c/stable/bin/cargo"];
    let vars = [("RUST_RECURSION_COUNT", "19"), ("NIX_RUST_WRANGLER_TOOLCHAIN_COLLECTION", "/c")];
    let command = machine.run(&["cargo"], &vars).unwrap();
    assert_eq!(set(&command, "RUST_RECURSION_COUNT"), Some("20".to_string()));
    for unreadable in ["", "x", "-1", "99999999999"] {
        let vars = [
            ("RUST_RECURSION_COUNT", unreadable),
            ("NIX_RUST_WRANGLER_TOOLCHAIN_COLLECTION", "/c"),
        ];
        let command = machine.run(&["cargo"], &vars).unwrap();
        assert_eq!(set(&command, "RUST_RECURSION_COUNT"), Some("1".to_string()));
    }
}

#[test]
fn reentered_dispatcher_runs_its_command_and_resolves_nothing() {
    let machine = Machine::new();
    let command = machine
        .run(
            &["/opt/w/bin/nix-rust-wrangler", "nix-develop-proxy", "cargo", "build", "-v"],
            &[("PATH", "/bin"), ("NIX_RUST_WRANGLER_INSIDE_NIX_DEVELOP", "1")],
        )
        .unwrap();
    assert_eq!(command.argv(), texts(&["cargo", "build", "-v"]));
    assert!(command.envs.is_empty());
    assert!(machine.asked.borrow().is_empty());
}

#[test]
fn reentered_dispatcher_sets_up_the_toolchain_to_fall_back_on() {
    let env = env_of(&[
        ("NIX_RUST_WRANGLER_TOOLCHAIN_FALLBACK", "/fb"),
        ("LD_LIBRARY_PATH", "/l"),
        ("RUST_RECURSION_COUNT", "1"),
    ]);
    let invocation =
        Invocation::derive(&texts(&["nix-develop-proxy", "cargo", "build"]), &env).unwrap();
    let command = run_develop_proxy(&invocation, &env).unwrap();
    assert_eq!(command.argv(), texts(&["cargo", "build"]));
    assert_eq!(set(&command, "LD_LIBRARY_PATH"), Some("/fb/lib:/l".to_string()));
    assert_eq!(set(&command, "RUST_RECURSION_COUNT"), Some("2".to_string()));
    assert_eq!(set(&command, "PATH"), None);
}

#[test]
fn reentered_dispatcher_without_command_fails() {
    let machine = Machine::new();
    assert_eq!(machine.fail(&["nix-rust-wrangler", "nix-develop-proxy"], &[]), Failure::MissingProxyCommand);
    let env = env_of(&[]);
    let invocation = Invocation::derive(&texts(&["nix-develop-proxy"]), &env).unwrap();
    assert!(run_develop_proxy(&invocation, &env).is_none());
}

#[test]
fn build_tool_is_not_looked_for_inside_a_derived_shell() {
    let machine = Machine::new();
    let env = env_of(&[("PATH", "/bin"), ("NIX_RUST_WRANGLER_INSIDE_NIX_DEVELOP", "1")]);
    assert_eq!(machine.settle(|obs| find_nix(&env, obs)), None);
    let env = env_of(&[("PATH", "/bin"), ("NIX_RUST_WRANGLER_DISABLE_NIX", "yes")]);
    assert_eq!(machine.settle(|obs| find_nix(&env, obs)), None);
    assert!(machine.asked.borrow().is_empty());
}

#[test]
fn build_tool_is_looked_for_otherwise() {
    let mut machine = Machine::new();
    machine.files = vec!["/bin/nix"];
    let env = env_of(&[("PATH", "/bin"), ("NIX_RUST_WRANGLER_DISABLE_NIX", "")]);
    let nix = machine.settle(|obs| find_nix(&env, obs)).unwrap();
    assert_eq!(nix.executable(), "/bin/nix");
    assert!(nix.is_usable() && nix.flakes_enabled());
}

#[test]
fn project_description_serves_first() {
    let mut machine = Machine::new();
    machine.files = vec!["/bin/nix", "/work/project/flake.nix", "/nix/store/tc/bin/rustc"];
    machine.config = Some((false, false));
    machine.host_platform = Some("h");
    machine.dirs = vec!["/c/stable"];
    let vars = [("PATH", "/bin"), ("NIX_RUST_WRANGLER_TOOLCHAIN_COLLECTION", "/c")];
    let command = machine.run(&["/usr/bin/rustc", "-V"], &vars).unwrap();
    assert_eq!(command.argv(), texts(&["/nix/store/tc/bin/rustc", "-V"]));
    assert_eq!(set(&command, "LD_LIBRARY_PATH"), Some("/nix/store/tc/lib".to_string()));
    assert_eq!(set(&command, "RUST_RECURSION_COUNT"), Some("1".to_string()));
    assert_eq!(
        set(&command, "NIX_RUST_WRANGLER_FLAKE_PATH"),
        Some("/work/project/flake.nix".to_string())
    );
    assert!(!machine.asked.borrow().iter().any(|q| matches!(q, Query::LoadCollectionMeta(_))));
}

#[test]
fn project_description_that_fails_to_evaluate_is_fatal() {
    let mut machine = Machine::new();
    machine.files = vec!["/bin/nix", "/work/project/flake.nix"];
    machine.eval_fails = true;
    assert_eq!(machine.fail(&["rustc"], &[("PATH", "/bin")]), Failure::Evaluation(FlakeEvalError::EvalFailed {
            status: Some(1),
            stdout: String::new(),
            stderr: "error: syntax".to_string()
        }));
}

#[test]
fn project_description_that_cannot_serve_is_fatal() {
    let mut machine = Machine::new();
    machine.files = vec!["/bin/nix", "/work/project/flake.nix"];
    machine.config = Some((false, false));
    assert_eq!(machine.fail(&["rustc"], &[("PATH", "/bin")]), Failure::Invoker(Error::ToolchainDoesNotProvideTool {
            path: "/nix/store/tc".to_string(),
            tool: "rustc".to_string()
        }));
}

#[test]
fn ignored_project_leaves_the_invocation_to_the_collection() {
    let mut machine = Machine::new();
    machine.files = vec!["/bin/nix", "/work/project/flake.nix", "/c/stable/bin/rustc"];
    machine.dirs = vec!["/c/stable"];
    machine.config = Some((true, true));
    machine.host_platform = Some("h");
    let vars = [("PATH", "/bin"), ("NIX_RUST_WRANGLER_TOOLCHAIN_COLLECTION", "/c")];
    let command = machine.run(&["rustc", "-V"], &vars).unwrap();
    assert_eq!(command.argv(), texts(&["/c/stable/bin/rustc", "-V"]));
    assert_eq!(set(&command, "NIX_RUST_WRANGLER_FLAKE_PATH"), None);
    assert!(!machine.asked.borrow().iter().any(|q| matches!(q, Query::DecodeBuild(_))));
}

#[test]
fn collection_serves_when_there_is_no_project_description() {
    let mut machine = Machine::new();
    machine.files = vec!["/bin/nix", "/c/nightly-h/bin/cargo"];
    machine.dirs = vec!["/c/nightly-h", "/c/stable"];
    machine.host_platform = Some("h");
    let vars = [
        ("PATH", "/bin"),
        ("NIX_RUST_WRANGLER_TOOLCHAIN_COLLECTION", "/c"),
        ("RUSTUP_TOOLCHAIN", "nightly"),
        ("LD_LIBRARY_PATH", "/old"),
    ];
    let command = machine.run(&["cargo", "build"], &vars).unwrap();
    assert_eq!(command.argv(), texts(&["/c/nightly-h/bin/cargo", "build"]));
    assert_eq!(set(&command, "LD_LIBRARY_PATH"), Some("/c/nightly-h/lib:/old".to_string()));
}

#[test]
fn only_the_package_manager_falls_back_in_the_collection() {
    let mut machine = Machine::new();
    machine.files = vec!["/c/stable/bin/cargo", "/c/stable/bin/rustfmt", "/c/custom/bin/rustc"];
    machine.dirs = vec!["/c/custom", "/c/stable"];
    machine.host_platform = Some("h");
    let vars = [("NIX_RUST_WRANGLER_TOOLCHAIN_COLLECTION", "/c")];
    let command = machine.run(&["cargo", "+custom", "build"], &vars).unwrap();
    assert_eq!(command.argv(), texts(&["/c/stable/bin/cargo", "build"]));
    assert_eq!(set(&command, "LD_LIBRARY_PATH"), Some("/c/stable/lib".to_string()));
    assert_eq!(machine.fail(&["rustfmt", "+custom"], &vars), Failure::Tool(Error::ToolchainDoesNotProvideTool {
            path: "/c/custom".to_string(),
            tool: "rustfmt".to_string()
        }));
}

#[test]
fn tool_that_the_collection_lacks_is_fatal() {
    let mut machine = Machine::new();
    machine.dirs = vec!["/c/stable"];
    machine.host_platform = Some("h");
    let vars = [("NIX_RUST_WRANGLER_TOOLCHAIN_COLLECTION", "/c")];
    assert_eq!(machine.fail(&["rustc", "+nightly"], &vars), Failure::Tool(Error::Collection(CollectionError::ToolchainNotFound(
            "nightly-h".to_string()
        ))));
}

#[test]
fn without_collection_and_outside_a_shell_the_search_fails() {
    let mut machine = Machine::new();
    machine.files = vec!["/bin/rustc"];
    assert_eq!(machine.fail(&["rustc"], &[("PATH", "/bin")]), Failure::NoToolchain);
    assert_eq!(machine.fail(&["rustc"], &[("PATH", "/bin"), ("NIX_RUST_WRANGLER_TOOLCHAIN_COLLECTION", "/c")]), Failure::NoToolchain,
        "a collection that does not load counts as none"
    );
}

#[test]
fn inside_a_shell_the_search_path_serves_without_collection() {
    let mut machine = Machine::new();
    machine.files = vec!["/shell/bin/rustc", "/opt/w/bin/nix-rust-wrangler"];
    let vars = [
        ("PATH", "/none:/shell/bin"),
        ("NIX_RUST_WRANGLER_INSIDE_NIX_DEVELOP", "1"),
        ("RUST_RECURSION_COUNT", "1"),
    ];
    let command = machine.run(&["rustc", "-V"], &vars).unwrap();
    assert_eq!(command.argv(), texts(&["/shell/bin/rustc", "-V"]));
    assert_eq!(set(&command, "RUST_RECURSION_COUNT"), Some("2".to_string()));
    assert_eq!(set(&command, "LD_LIBRARY_PATH"), None);
    assert_eq!(machine.fail(&["cargo"], &vars), Failure::NoToolchain);
}

#[test]
fn strict_search_does_not_use_the_search_path() {
    let mut machine = Machine::new();
    machine.files = vec!["/shell/bin/rustc"];
    let vars = [("PATH", "/shell/bin"), ("NIX_RUST_WRANGLER_INSIDE_NIX_DEVELOP", "1")];
    assert_eq!(
        machine.run_with(&["rustc"], &vars, SearchPolicy::Strict).unwrap_err(),
        Failure::NoToolchain
    );
    assert!(machine.asked.borrow().is_empty());
}

#[test]
fn dispatcher_in_the_search_path_is_not_handed_over_to() {
    let mut machine = Machine::new();
    machine.files = vec!["/opt/w/bin/nix-rust-wrangler"];
    machine.links.insert("/links/rustc", "/opt/w/bin/nix-rust-wrangler");
    let vars = [("PATH", "/links"), ("NIX_RUST_WRANGLER_INSIDE_NIX_DEVELOP", "1")];
    assert_eq!(machine.fail(&["rustc"], &vars), Failure::OwnExecutableInPath);

    let env = env_of(&vars);
    let invocation = Invocation::derive(&texts(&["rustc"]), &env).unwrap();
    assert!(matches!(
        machine.settle(|obs| invoker_for_system_path(&invocation, &env, obs)),
        AmbientTool::Own
    ));
    let invocation = Invocation::derive(&texts(&["cargo"]), &env).unwrap();
    assert!(matches!(
        machine.settle(|obs| invoker_for_system_path(&invocation, &env, obs)),
        AmbientTool::Absent
    ));
}

#[test]
fn shell_of_the_project_reenters_the_dispatcher() {
    let mut machine = Machine::new();
    machine.files = vec!["/bin/nix", "/work/project/flake.nix", "/nix/store/tc/bin/rustc"];
    machine.config = Some((false, true));
    let failure = machine.fail(&["cargo", "+s", "build"], &[("PATH", "/bin")]);
    assert_eq!(failure, Failure::NoToolchain, "the override is not declared");

    let command = machine
        .run(&["cargo", "build"], &[("PATH", "/bin"), ("RUST_RECURSION_COUNT", "3")])
        .unwrap();
    assert_eq!(
        command.argv(),
        texts(&[
            "/bin/nix",
            "develop",
            "/work/project",
            "--command",
            "/opt/w/bin/nix-rust-wrangler",
            "nix-develop-proxy",
            "cargo",
            "build",
        ])
    );
    assert_eq!(
        set(&command, "NIX_RUST_WRANGLER_TOOLCHAIN_FALLBACK"),
        Some("/nix/store/tc".to_string())
    );
    assert_eq!(set(&command, "NIX_RUST_WRANGLER_INSIDE_NIX_DEVELOP"), Some("1".to_string()));
    assert_eq!(set(&command, "RUST_RECURSION_COUNT"), Some("4".to_string()));
    assert_eq!(
        set(&command, "NIX_RUST_WRANGLER_FLAKE_PATH"),
        Some("/work/project/flake.nix".to_string())
    );
}
