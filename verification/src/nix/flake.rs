//! The project description and the two operations of the external build tool on it.

use vstd::prelude::*;
use crate::environment::{raw_var, EnvModel, Environment, FLAKE_PATH_VAR};
use crate::error::{FlakeEvalError, FlakeEvalErrorModel};
use crate::model::Model;
use crate::nix::config::{FlakeInspection, FlakeInspectionModel};
use crate::nix::{NixCommand, NixCommandModel};
use crate::paths::{join, parent, path_join, path_parent};
use crate::table::Keyed;
use crate::text::{chain3, copy_bytes, lossy_text, lossy_text_of, owned};
use crate::world::{
    built_of, current_dir_of, extends, inspection_of, lemma_known_stays, output_of, settled,
    status_of, ObsModel, Observations, ProcessOutput, ProcessOutputModel, Query, QueryModel, Step,
    StepModel,
};

verus! {

/// One derivation that a build produced, with its outputs by name.
#[derive(Debug, Clone)]
pub struct FlakeBuildOutput {
    pub drv_path: String,
    pub outputs: Keyed<String>,
}

pub ghost struct FlakeBuildOutputModel {
    pub drv_path: Seq<char>,
    pub outputs: Map<Seq<char>, Seq<char>>,
}

impl Model for FlakeBuildOutput {
    type M = FlakeBuildOutputModel;

    open spec fn model(&self) -> FlakeBuildOutputModel {
        FlakeBuildOutputModel { drv_path: self.drv_path@, outputs: self.outputs.model() }
    }
}

/// The file name of a project description.
pub const FLAKE_FILE: &'static str = "flake.nix";

/// A project description: the file and the directory it stands in.
#[derive(Debug, Clone, PartialEq, Eq)]
pub struct NixFlake {
    flake_path: String,
    flake_dir: String,
}

pub ghost struct NixFlakeModel {
    pub flake_path: Seq<char>,
    pub flake_dir: Seq<char>,
}

impl Model for NixFlake {
    type M = NixFlakeModel;

    closed spec fn model(&self) -> NixFlakeModel {
        NixFlakeModel { flake_path: self.flake_path@, flake_dir: self.flake_dir@ }
    }
}

/// The project description in `dir` or in the nearest directory above it that
/// has one. A directory has one where `flake.nix` in it is a file.
pub open spec fn flake_above(obs: ObsModel, dir: Seq<char>) -> StepModel<Option<NixFlakeModel>>
    decreases dir.len(),
{
    let candidate = path_join(dir, FLAKE_FILE@);
    match status_of(obs, candidate) {
        None => StepModel::Need(QueryModel::Stat(candidate)),
        Some(status) => if status.is_file {
            StepModel::Done(Some(NixFlakeModel { flake_path: candidate, flake_dir: dir }))
        } else {
            match path_parent(dir) {
                // the directory above is a shorter path, so the search ends
                Some(up) if up.len() < dir.len() => flake_above(obs, up),
                _ => StepModel::Done(None),
            }
        },
    }
}

/// The project description that was asked for by path: it stands in the
/// directory above the path, or in the root where there is none above.
pub open spec fn flake_at(flake_path: Seq<char>) -> NixFlakeModel {
    NixFlakeModel {
        flake_path,
        flake_dir: match path_parent(flake_path) {
            Some(dir) => dir,
            None => "/"@,
        },
    }
}

/// The project description of this process: the one that the environment
/// names, or else the one at or above the working directory, or else the one
/// at or above the directory of the executable as it was called.
pub open spec fn flake_of(env: EnvModel, obs: ObsModel, argv0: Option<Seq<char>>) -> StepModel<
    Option<NixFlakeModel>,
> {
    match raw_var(env, FLAKE_PATH_VAR@) {
        Some(flake_path) => StepModel::Done(Some(flake_at(flake_path))),
        None => match current_dir_of(obs) {
            None => StepModel::Need(QueryModel::CurrentDir),
            Some(Err(_)) => StepModel::Done(None),
            Some(Ok(cwd)) => match flake_above(obs, cwd) {
                StepModel::Need(query) => StepModel::Need(query),
                StepModel::Done(Some(flake)) => StepModel::Done(Some(flake)),
                StepModel::Done(None) => match argv0 {
                    None => StepModel::Done(None),
                    Some(exe) => match path_parent(exe) {
                        None => StepModel::Done(None),
                        Some(exe_dir) => flake_above(obs, exe_dir),
                    },
                },
            },
        },
    }
}

/// What a run of the external tool wrote, where it exited with status zero;
/// otherwise the failure, with what it wrote as text.
pub open spec fn handled(output: ProcessOutputModel) -> Result<Seq<u8>, FlakeEvalErrorModel> {
    if output.status != Some(0i32) {
        Err(
            FlakeEvalErrorModel::EvalFailed {
                status: output.status,
                stdout: lossy_text(output.stdout),
                stderr: lossy_text(output.stderr),
            },
        )
    } else {
        Ok(output.stdout)
    }
}

impl NixFlakeModel {
    /// The name of an attribute of the project description, as the external
    /// tool wants it.
    pub open spec fn installable(self, attr: Seq<char>) -> Seq<char> {
        self.flake_dir + "#"@ + attr
    }

    /// The command that evaluates `expr` on the attribute `attr`.
    pub open spec fn eval_command(self, nix: NixCommandModel, attr: Seq<char>, expr: Seq<char>) -> Seq<
        Seq<char>,
    > {
        seq![nix.executable, "eval"@, "--json"@, self.installable(attr), "--apply"@, expr]
    }

    /// The command that builds the attribute `attr`.
    pub open spec fn build_command(self, nix: NixCommandModel, attr: Seq<char>) -> Seq<Seq<char>> {
        seq![nix.executable, "build"@, "--no-link"@, "--json"@, self.installable(attr)]
    }

    /// The bytes that a command of the external tool wrote.
    pub open spec fn ran(obs: ObsModel, command: Seq<Seq<char>>) -> StepModel<
        Result<Seq<u8>, FlakeEvalErrorModel>,
    > {
        match output_of(obs, command) {
            None => StepModel::Need(QueryModel::Run(command)),
            Some(Err(report)) => StepModel::Done(Err(FlakeEvalErrorModel::Io(report))),
            Some(Ok(output)) => StepModel::Done(handled(output)),
        }
    }

    /// What the evaluation of `expr` on the attribute `attr` reports.
    pub open spec fn evaluated(
        self,
        obs: ObsModel,
        nix: NixCommandModel,
        attr: Seq<char>,
        expr: Seq<char>,
    ) -> StepModel<Result<FlakeInspectionModel, FlakeEvalErrorModel>> {
        match Self::ran(obs, self.eval_command(nix, attr, expr)) {
            StepModel::Need(query) => StepModel::Need(query),
            StepModel::Done(Err(error)) => StepModel::Done(Err(error)),
            StepModel::Done(Ok(bytes)) => match inspection_of(obs, bytes) {
                None => StepModel::Need(QueryModel::DecodeInspection(bytes)),
                Some(Err(report)) => StepModel::Done(Err(FlakeEvalErrorModel::Parse(report))),
                Some(Ok(inspection)) => StepModel::Done(Ok(inspection)),
            },
        }
    }

    /// What the build of the attribute `attr` produces.
    pub open spec fn built(self, obs: ObsModel, nix: NixCommandModel, attr: Seq<char>) -> StepModel<
        Result<Seq<FlakeBuildOutputModel>, FlakeEvalErrorModel>,
    > {
        match Self::ran(obs, self.build_command(nix, attr)) {
            StepModel::Need(query) => StepModel::Need(query),
            StepModel::Done(Err(error)) => StepModel::Done(Err(error)),
            StepModel::Done(Ok(bytes)) => match built_of(obs, bytes) {
                None => StepModel::Need(QueryModel::DecodeBuild(bytes)),
                Some(Err(report)) => StepModel::Done(Err(FlakeEvalErrorModel::Parse(report))),
                Some(Ok(outputs)) => StepModel::Done(Ok(outputs)),
            },
        }
    }
}

impl NixFlake {
    /// Finds the project description of this process: the one that the
    /// environment names, or else the nearest one at or above the working
    /// directory, or else at or above the directory of `argv0`.
    pub fn find_automatically(env: &Environment, obs: &Observations, argv0: Option<&str>) -> (found:
        Step<Option<Self>>)
        ensures
            found.model() == flake_of(env.model(), obs.model(), argv0.model()),
    {
        if let Some(flake_path) = env.var_os(FLAKE_PATH_VAR) {
            let flake_dir = match parent(flake_path) {
                Some(dir) => dir,
                None => owned("/"),
            };
            return Step::Done(Some(NixFlake { flake_path: owned(flake_path), flake_dir }));
        }
        let cwd = match obs.current_dir() {
            None => {
                return Step::Need(Query::CurrentDir);
            },
            Some(Err(_)) => {
                return Step::Done(None);
            },
            Some(Ok(cwd)) => cwd,
        };
        match Self::find(obs, cwd.as_str()) {
            Step::Need(query) => {
                return Step::Need(query);
            },
            Step::Done(Some(flake)) => {
                return Step::Done(Some(flake));
            },
            Step::Done(None) => {},
        }
        let exe = match argv0 {
            None => {
                return Step::Done(None);
            },
            Some(exe) => exe,
        };
        match parent(exe) {
            None => Step::Done(None),
            Some(exe_dir) => Self::find(obs, exe_dir.as_str()),
        }
    }

    /// Searches the tree upwards from `start` for a project description.
    pub fn find(obs: &Observations, start: &str) -> (found: Step<Option<Self>>)
        ensures
            found.model() == flake_above(obs.model(), start@),
    {
        let mut current = owned(start);
        loop
            invariant
                flake_above(obs.model(), start@) == flake_above(obs.model(), current@),
            decreases current@.len(),
        {
            let flake_path = join(current.as_str(), FLAKE_FILE);
            match obs.stat(flake_path.as_str()) {
                None => {
                    return Step::Need(Query::Stat(flake_path));
                },
                Some(status) => {
                    if status.is_file {
                        return Step::Done(Some(NixFlake { flake_path, flake_dir: current }));
                    }
                },
            }
            match parent(current.as_str()) {
                None => {
                    return Step::Done(None);
                },
                Some(up) => {
                    current = up;
                },
            }
        }
    }

    /// The file of the project description.
    pub fn path(&self) -> (path: &str)
        ensures
            path@ == self.model().flake_path,
    {
        self.flake_path.as_str()
    }

    /// The directory of the project description.
    pub fn dir(&self) -> (dir: &str)
        ensures
            dir@ == self.model().flake_dir,
    {
        self.flake_dir.as_str()
    }

    /// Applies the expression `expr` to the attribute `attr` of the project
    /// description and reads the result as an inspection.
    pub fn apply_expr_json<'a>(
        &self,
        obs: &'a Observations,
        nix_command: &NixCommand,
        attr: &str,
        expr: &str,
    ) -> (evaluated: Step<Result<&'a FlakeInspection, FlakeEvalError>>)
        ensures
            evaluated.model() == self.model().evaluated(
                obs.model(),
                nix_command.model(),
                attr@,
                expr@,
            ),
    {
        let mut command = nix_command.new_command();
        assert(command@.len() == 1 && command@[0]@ == nix_command.model().executable) by {
            assert(command.model().len() == 1);
            assert(command.model()[0] == nix_command.model().executable);
        }
        command.push(owned("eval"));
        command.push(owned("--json"));
        command.push(self.installable(attr));
        command.push(owned("--apply"));
        command.push(owned(expr));
        assert(command.model() =~= self.model().eval_command(nix_command.model(), attr@, expr@));
        let bytes = match Self::run(obs, command) {
            Step::Need(query) => {
                return Step::Need(query);
            },
            Step::Done(Err(error)) => {
                return Step::Done(Err(error));
            },
            Step::Done(Ok(bytes)) => bytes,
        };
        let query = Query::DecodeInspection(bytes);
        match obs.inspection(&query) {
            None => Step::Need(query),
            Some(Err(report)) => Step::Done(Err(FlakeEvalError::Parse(report.clone()))),
            Some(Ok(inspection)) => Step::Done(Ok(inspection)),
        }
    }

    /// Builds the attribute `attr` of the project description.
    pub fn build<'a>(&self, obs: &'a Observations, nix_command: &NixCommand, attr: &str) -> (built:
        Step<Result<&'a Vec<FlakeBuildOutput>, FlakeEvalError>>)
        ensures
            built.model() == self.model().built(obs.model(), nix_command.model(), attr@),
    {
        let mut command = nix_command.new_command();
        assert(command@.len() == 1 && command@[0]@ == nix_command.model().executable) by {
            assert(command.model().len() == 1);
            assert(command.model()[0] == nix_command.model().executable);
        }
        command.push(owned("build"));
        command.push(owned("--no-link"));
        command.push(owned("--json"));
        command.push(self.installable(attr));
        assert(command.model() =~= self.model().build_command(nix_command.model(), attr@));
        let bytes = match Self::run(obs, command) {
            Step::Need(query) => {
                return Step::Need(query);
            },
            Step::Done(Err(error)) => {
                return Step::Done(Err(error));
            },
            Step::Done(Ok(bytes)) => bytes,
        };
        let query = Query::DecodeBuild(bytes);
        match obs.built(&query) {
            None => Step::Need(query),
            Some(Err(report)) => Step::Done(Err(FlakeEvalError::Parse(report.clone()))),
            Some(Ok(outputs)) => Step::Done(Ok(outputs)),
        }
    }

    /// The bytes that a command of the external tool writes.
    pub fn run(obs: &Observations, command: Vec<String>) -> (ran: Step<
        Result<Vec<u8>, FlakeEvalError>,
    >)
        ensures
            ran.model() == NixFlakeModel::ran(obs.model(), command.model()),
    {
        let query = Query::Run(command);
        match obs.output(&query) {
            None => Step::Need(query),
            Some(Err(report)) => Step::Done(Err(FlakeEvalError::Io(report.clone()))),
            Some(Ok(output)) => Step::Done(Self::handle_nix_output(output)),
        }
    }

    /// What a run of the external tool wrote, where it exited with status zero.
    pub fn handle_nix_output(output: &ProcessOutput) -> (bytes: Result<Vec<u8>, FlakeEvalError>)
        ensures
            bytes.model() == handled(output.model()),
    {
        let exited_well = match output.status {
            Some(code) => code == 0,
            None => false,
        };
        assert(output.stdout.model() =~= output.stdout@);
        assert(output.stderr.model() =~= output.stderr@);
        if !exited_well {
            return Err(
                FlakeEvalError::EvalFailed {
                    status: output.status,
                    stderr: lossy_text_of(&output.stderr),
                    stdout: lossy_text_of(&output.stdout),
                },
            );
        }
        let bytes = copy_bytes(&output.stdout);
        assert(bytes.model() =~= bytes@);
        Ok(bytes)
    }

    /// The name of the attribute `attr` of this project description, as the
    /// external tool wants it.
    pub fn installable(&self, attr: &str) -> (name: String)
        ensures
            name@ == self.model().installable(attr@),
    {
        chain3(self.flake_dir.as_str(), "#", attr)
    }
}

/// The search for a project description above a directory is settled.
pub proof fn lemma_flake_above_settled(earlier: ObsModel, later: ObsModel, dir: Seq<char>)
    requires
        extends(later, earlier),
    ensures
        settled(flake_above(earlier, dir), flake_above(later, dir), earlier),
    decreases dir.len(),
{
    lemma_known_stays(earlier, later);
    if let Some(up) = path_parent(dir) {
        if up.len() < dir.len() {
            lemma_flake_above_settled(earlier, later, up);
        }
    }
}

/// The search for the project description of the process is settled.
pub proof fn lemma_flake_of_settled(
    env: EnvModel,
    earlier: ObsModel,
    later: ObsModel,
    argv0: Option<Seq<char>>,
)
    requires
        extends(later, earlier),
    ensures
        settled(flake_of(env, earlier, argv0), flake_of(env, later, argv0), earlier),
{
    lemma_known_stays(earlier, later);
    if let Some(Ok(cwd)) = current_dir_of(earlier) {
        lemma_flake_above_settled(earlier, later, cwd);
    }
    if let Some(exe) = argv0 {
        if let Some(exe_dir) = path_parent(exe) {
            lemma_flake_above_settled(earlier, later, exe_dir);
        }
    }
}

/// The two operations of the external build tool are settled.
pub proof fn lemma_operations_settled(
    flake: NixFlakeModel,
    earlier: ObsModel,
    later: ObsModel,
    nix: NixCommandModel,
    attr: Seq<char>,
    expr: Seq<char>,
)
    requires
        extends(later, earlier),
    ensures
        settled(
            flake.evaluated(earlier, nix, attr, expr),
            flake.evaluated(later, nix, attr, expr),
            earlier,
        ),
        settled(flake.built(earlier, nix, attr), flake.built(later, nix, attr), earlier),
{
    lemma_known_stays(earlier, later);
}

} // verus!
