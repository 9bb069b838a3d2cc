//! The external build tool: where it is and what it can do.

pub mod config;
pub mod flake;
pub mod proxy;

use vstd::prelude::*;
use vstd::utf8::{decode_utf8, valid_utf8};
use crate::environment::{EnvModel, Environment};
use crate::model::Model;
use crate::text::{owned, same_text, text_of, trim, trimmed};
use crate::util::{executable_in_path, find_executable_in_path, split_on, split_text};
use crate::world::{
    extends, lemma_known_stays, output_of, settled, ObsModel, Observations, ProcessOutput,
    ProcessOutputModel, Query, QueryModel, Step, StepModel,
};

verus! {

/// The file name of the external build tool.
pub const NIX_EXECUTABLE: &'static str = "nix";

/// The feature that the tool has to list for project descriptions to work.
pub const FLAKES_FEATURE: &'static str = "flakes";

/// The external build tool as it was found.
#[derive(Debug, Clone, PartialEq, Eq)]
pub struct NixCommand {
    executable: String,
    is_usable: bool,
    flakes_enabled: bool,
}

pub ghost struct NixCommandModel {
    pub executable: Seq<char>,
    pub is_usable: bool,
    pub flakes_enabled: bool,
}

impl Model for NixCommand {
    type M = NixCommandModel;

    closed spec fn model(&self) -> NixCommandModel {
        NixCommandModel {
            executable: self.executable@,
            is_usable: self.is_usable,
            flakes_enabled: self.flakes_enabled,
        }
    }
}

/// Whether some word of a list of words separated by single spaces is `word`.
pub open spec fn has_word(words: Seq<char>, word: Seq<char>) -> bool {
    split_on(words, ' ').contains(word)
}

/// Whether the tool's list of features names the project description feature.
pub open spec fn lists_flakes(features: Seq<char>) -> bool {
    has_word(trimmed(features), FLAKES_FEATURE@)
}

/// The command that asks the tool at `executable` for its features.
pub open spec fn features_command(executable: Seq<char>) -> Seq<Seq<char>> {
    seq![executable, "config"@, "show"@, "experimental-features"@]
}

/// What the answer to the question for its features says of the tool. The
/// tool is usable where it ran, exited with status zero and wrote Unicode text.
pub open spec fn probed(
    executable: Seq<char>,
    reply: Result<ProcessOutputModel, Seq<char>>,
) -> NixCommandModel {
    let unusable = NixCommandModel { executable, is_usable: false, flakes_enabled: false };
    match reply {
        Err(_) => unusable,
        Ok(output) => if output.status != Some(0i32) {
            unusable
        } else if !valid_utf8(output.stdout) {
            unusable
        } else {
            NixCommandModel {
                executable,
                is_usable: true,
                flakes_enabled: lists_flakes(decode_utf8(output.stdout)),
            }
        },
    }
}

/// The tool as the search path finds it, with what it says of itself.
pub open spec fn nix_command_of(env: EnvModel, obs: ObsModel) -> StepModel<
    Option<NixCommandModel>,
> {
    match executable_in_path(env, obs, NIX_EXECUTABLE@) {
        StepModel::Need(query) => StepModel::Need(query),
        StepModel::Done(None) => StepModel::Done(None),
        StepModel::Done(Some(executable)) => match output_of(obs, features_command(executable)) {
            None => StepModel::Need(QueryModel::Run(features_command(executable))),
            Some(reply) => StepModel::Done(Some(probed(executable, reply))),
        },
    }
}

/// Whether some word of `words`, which are separated by single spaces, is `word`.
pub fn contains_word(words: &str, word: &str) -> (found: bool)
    ensures
        found == has_word(words@, word@),
{
    let parts = split_text(words, ' ');
    let mut i: usize = 0;
    while i < parts.len()
        invariant
            i <= parts.len(),
            parts.len() == parts.model().len(),
            parts.model() == split_on(words@, ' '),
            forall|j: int| 0 <= j < i ==> parts.model()[j] != word@,
        decreases parts.len() - i,
    {
        if same_text(parts[i].as_str(), word) {
            assert(parts.model()[i as int] == word@);
            return true;
        }
        i = i + 1;
    }
    false
}

impl NixCommand {
    /// Looks for the tool in the search path and asks it for its features.
    pub fn find(env: &Environment, obs: &Observations) -> (found: Step<Option<Self>>)
        ensures
            found.model() == nix_command_of(env.model(), obs.model()),
    {
        let executable = match find_executable_in_path(env, obs, NIX_EXECUTABLE) {
            Step::Need(query) => {
                return Step::Need(query);
            },
            Step::Done(None) => {
                return Step::Done(None);
            },
            Step::Done(Some(executable)) => executable,
        };
        let mut command: Vec<String> = Vec::new();
        command.push(executable.clone());
        command.push(owned("config"));
        command.push(owned("show"));
        command.push(owned("experimental-features"));
        assert(command.model() =~= features_command(executable@));
        let query = Query::Run(command);
        match obs.output(&query) {
            None => Step::Need(query),
            Some(reply) => Step::Done(Some(Self::from_features_reply(executable, reply))),
        }
    }

    /// The tool at `executable`, judged by the answer to the question for its features.
    pub fn from_features_reply(executable: String, reply: &Result<ProcessOutput, String>) -> (command:
        Self)
        ensures
            command.model() == probed(executable@, reply.model()),
    {
        match reply {
            Err(_) => NixCommand { executable, is_usable: false, flakes_enabled: false },
            Ok(output) => {
                let exited_well = match output.status {
                    Some(code) => code == 0,
                    None => false,
                };
                if !exited_well {
                    return NixCommand { executable, is_usable: false, flakes_enabled: false };
                }
                assert(output.stdout.model() =~= output.stdout@);
                match text_of(&output.stdout) {
                    None => NixCommand { executable, is_usable: false, flakes_enabled: false },
                    Some(features) => {
                        let flakes_enabled = contains_word(
                            trim(features.as_str()),
                            FLAKES_FEATURE,
                        );
                        NixCommand { executable, is_usable: true, flakes_enabled }
                    },
                }
            },
        }
    }

    /// Whether the tool ran and answered.
    pub fn is_usable(&self) -> (usable: bool)
        ensures
            usable == self.model().is_usable,
    {
        self.is_usable
    }

    /// Whether the tool works with project descriptions.
    pub fn flakes_enabled(&self) -> (enabled: bool)
        ensures
            enabled == self.model().flakes_enabled,
    {
        self.flakes_enabled
    }

    /// Where the tool is.
    pub fn executable(&self) -> (path: &str)
        ensures
            path@ == self.model().executable,
    {
        self.executable.as_str()
    }

    /// The beginning of a command line that runs the tool.
    pub fn new_command(&self) -> (command: Vec<String>)
        ensures
            command.model() == seq![self.model().executable],
    {
        let mut command: Vec<String> = Vec::new();
        command.push(self.executable.clone());
        assert(command.model() =~= seq![self.executable@]);
        command
    }
}

/// The search for the external build tool is settled.
pub proof fn lemma_nix_command_settled(env: EnvModel, earlier: ObsModel, later: ObsModel)
    requires
        extends(later, earlier),
    ensures
        settled(nix_command_of(env, earlier), nix_command_of(env, later), earlier),
{
    lemma_known_stays(earlier, later);
    crate::util::lemma_executable_in_path_settled(env, earlier, later, NIX_EXECUTABLE@);
}

} // verus!
