//! What the dispatcher learns from outside the process, as plain values.
//!
//! The decisions of this crate never touch the file system or start a
//! process. A decision is a function of the observations made so far: it
//! either gives its result, or names the one query that it needs answered
//! next. The caller answers the query, records the answer and asks again.

use vstd::prelude::*;
use crate::collection::{ToolchainCollectionMeta, ToolchainCollectionMetaModel};
use crate::error::{CollectionError, CollectionErrorModel};
use crate::model::Model;
use crate::nix::config::{FlakeInspection, FlakeInspectionModel};
use crate::nix::flake::{FlakeBuildOutput, FlakeBuildOutputModel};
use crate::table::{Key, Table};
use crate::text::{owned, same_text};

verus! {

/// What the file system says of one path.
#[derive(Debug, PartialEq, Eq)]
pub struct PathStatus {
    /// The path leads to something.
    pub exists: bool,
    /// The path leads to a regular file.
    pub is_file: bool,
    /// The path leads to a directory.
    pub is_dir: bool,
    /// The path itself is a symbolic link.
    pub is_symlink: bool,
    /// The path in canonical form, or the report of why there is none.
    pub canonical: Result<String, String>,
}

pub ghost struct PathStatusModel {
    pub exists: bool,
    pub is_file: bool,
    pub is_dir: bool,
    pub is_symlink: bool,
    pub canonical: Result<Seq<char>, Seq<char>>,
}

impl Model for PathStatus {
    type M = PathStatusModel;

    open spec fn model(&self) -> PathStatusModel {
        PathStatusModel {
            exists: self.exists,
            is_file: self.is_file,
            is_dir: self.is_dir,
            is_symlink: self.is_symlink,
            canonical: self.canonical.model(),
        }
    }
}

/// How a process ended and what it wrote.
#[derive(Debug, Clone, PartialEq, Eq)]
pub struct ProcessOutput {
    /// The exit status, where the process exited by itself.
    pub status: Option<i32>,
    pub stdout: Vec<u8>,
    pub stderr: Vec<u8>,
}

pub ghost struct ProcessOutputModel {
    pub status: Option<i32>,
    pub stdout: Seq<u8>,
    pub stderr: Seq<u8>,
}

impl Model for ProcessOutput {
    type M = ProcessOutputModel;

    open spec fn model(&self) -> ProcessOutputModel {
        ProcessOutputModel {
            status: self.status,
            stdout: self.stdout.model(),
            stderr: self.stderr.model(),
        }
    }
}

/// A question to the world outside the process.
#[derive(Debug, Clone, PartialEq, Eq)]
pub enum Query {
    /// What is at this path?
    Stat(String),
    /// What is the working directory?
    CurrentDir,
    /// Where is the executable of this process?
    CurrentExe,
    /// What does this command, program first, exit with and write?
    Run(Vec<String>),
    /// Which inspection do these bytes encode?
    DecodeInspection(Vec<u8>),
    /// Which build outputs do these bytes encode?
    DecodeBuild(Vec<u8>),
    /// What does the metadata file at this path hold?
    LoadCollectionMeta(String),
}

pub ghost enum QueryModel {
    Stat(Seq<char>),
    CurrentDir,
    CurrentExe,
    Run(Seq<Seq<char>>),
    DecodeInspection(Seq<u8>),
    DecodeBuild(Seq<u8>),
    LoadCollectionMeta(Seq<char>),
}

impl Model for Query {
    type M = QueryModel;

    open spec fn model(&self) -> QueryModel {
        match self {
            Query::Stat(path) => QueryModel::Stat(path@),
            Query::CurrentDir => QueryModel::CurrentDir,
            Query::CurrentExe => QueryModel::CurrentExe,
            Query::Run(command) => QueryModel::Run(command.model()),
            Query::DecodeInspection(bytes) => QueryModel::DecodeInspection(bytes.model()),
            Query::DecodeBuild(bytes) => QueryModel::DecodeBuild(bytes.model()),
            Query::LoadCollectionMeta(path) => QueryModel::LoadCollectionMeta(path@),
        }
    }
}

/// Whether two lists of texts hold the same texts in the same order.
pub fn same_texts(a: &Vec<String>, b: &Vec<String>) -> (same: bool)
    ensures
        same == (a.model() == b.model()),
{
    if a.len() != b.len() {
        assert(a.model().len() != b.model().len());
        return false;
    }
    let mut i: usize = 0;
    while i < a.len()
        invariant
            i <= a.len(),
            a.len() == b.len(),
            forall|j: int| 0 <= j < i ==> a.model()[j] == b.model()[j],
        decreases a.len() - i,
    {
        if !same_text(a[i].as_str(), b[i].as_str()) {
            assert(a.model()[i as int] != b.model()[i as int]);
            return false;
        }
        i = i + 1;
    }
    assert(a.model() =~= b.model());
    true
}

/// Whether two byte strings hold the same bytes.
pub fn same_bytes(a: &Vec<u8>, b: &Vec<u8>) -> (same: bool)
    ensures
        same == (a.model() == b.model()),
{
    if a.len() != b.len() {
        assert(a.model().len() != b.model().len());
        return false;
    }
    let mut i: usize = 0;
    while i < a.len()
        invariant
            i <= a.len(),
            a.len() == b.len(),
            forall|j: int| 0 <= j < i ==> a.model()[j] == b.model()[j],
        decreases a.len() - i,
    {
        if a[i] != b[i] {
            assert(a.model()[i as int] != b.model()[i as int]);
            return false;
        }
        i = i + 1;
    }
    assert(a.model() =~= b.model());
    true
}

impl Key for Query {
    fn same(&self, other: &Self) -> (same: bool) {
        match (self, other) {
            (Query::Stat(a), Query::Stat(b)) => same_text(a.as_str(), b.as_str()),
            (Query::CurrentDir, Query::CurrentDir) => true,
            (Query::CurrentExe, Query::CurrentExe) => true,
            (Query::Run(a), Query::Run(b)) => same_texts(a, b),
            (Query::DecodeInspection(a), Query::DecodeInspection(b)) => same_bytes(a, b),
            (Query::DecodeBuild(a), Query::DecodeBuild(b)) => same_bytes(a, b),
            (Query::LoadCollectionMeta(a), Query::LoadCollectionMeta(b)) => same_text(
                a.as_str(),
                b.as_str(),
            ),
            _ => false,
        }
    }
}

/// An answer of the world outside the process.
#[derive(Debug)]
pub enum Answer {
    /// To `Stat`.
    Status(PathStatus),
    /// To `CurrentDir` and `CurrentExe`: the path, or the system's report.
    Location(Result<String, String>),
    /// To `Run`: the output, or the report of why the program did not start.
    Output(Result<ProcessOutput, String>),
    /// To `DecodeInspection`: the inspection, or the decoder's report.
    Inspection(Result<FlakeInspection, String>),
    /// To `DecodeBuild`: the build outputs, or the decoder's report.
    Built(Result<Vec<FlakeBuildOutput>, String>),
    /// To `LoadCollectionMeta`.
    CollectionMeta(Result<ToolchainCollectionMeta, CollectionError>),
}

pub ghost enum AnswerModel {
    Status(PathStatusModel),
    Location(Result<Seq<char>, Seq<char>>),
    Output(Result<ProcessOutputModel, Seq<char>>),
    Inspection(Result<FlakeInspectionModel, Seq<char>>),
    Built(Result<Seq<FlakeBuildOutputModel>, Seq<char>>),
    CollectionMeta(Result<ToolchainCollectionMetaModel, CollectionErrorModel>),
}

impl Model for Answer {
    type M = AnswerModel;

    open spec fn model(&self) -> AnswerModel {
        match self {
            Answer::Status(status) => AnswerModel::Status(status.model()),
            Answer::Location(location) => AnswerModel::Location(location.model()),
            Answer::Output(output) => AnswerModel::Output(output.model()),
            Answer::Inspection(inspection) => AnswerModel::Inspection(inspection.model()),
            Answer::Built(built) => AnswerModel::Built(built.model()),
            Answer::CollectionMeta(meta) => AnswerModel::CollectionMeta(meta.model()),
        }
    }
}

/// Whether an answer is of the kind that a query asks for.
pub open spec fn fits(query: QueryModel, answer: AnswerModel) -> bool {
    match query {
        QueryModel::Stat(_) => answer is Status,
        QueryModel::CurrentDir => answer is Location,
        QueryModel::CurrentExe => answer is Location,
        QueryModel::Run(_) => answer is Output,
        QueryModel::DecodeInspection(_) => answer is Inspection,
        QueryModel::DecodeBuild(_) => answer is Built,
        QueryModel::LoadCollectionMeta(_) => answer is CollectionMeta,
    }
}

/// The answers known so far, by query.
pub type ObsModel = Map<QueryModel, AnswerModel>;

/// What is known of a path.
pub open spec fn status_of(obs: ObsModel, path: Seq<char>) -> Option<PathStatusModel> {
    let query = QueryModel::Stat(path);
    if obs.contains_key(query) && obs[query] is Status {
        Some(obs[query]->Status_0)
    } else {
        None
    }
}

/// What is known of the working directory.
pub open spec fn current_dir_of(obs: ObsModel) -> Option<Result<Seq<char>, Seq<char>>> {
    let query = QueryModel::CurrentDir;
    if obs.contains_key(query) && obs[query] is Location {
        Some(obs[query]->Location_0)
    } else {
        None
    }
}

/// What is known of the process's own executable.
pub open spec fn current_exe_of(obs: ObsModel) -> Option<Result<Seq<char>, Seq<char>>> {
    let query = QueryModel::CurrentExe;
    if obs.contains_key(query) && obs[query] is Location {
        Some(obs[query]->Location_0)
    } else {
        None
    }
}

/// What is known of a command's run.
pub open spec fn output_of(obs: ObsModel, command: Seq<Seq<char>>) -> Option<
    Result<ProcessOutputModel, Seq<char>>,
> {
    let query = QueryModel::Run(command);
    if obs.contains_key(query) && obs[query] is Output {
        Some(obs[query]->Output_0)
    } else {
        None
    }
}

/// What is known of the inspection that some bytes encode.
pub open spec fn inspection_of(obs: ObsModel, bytes: Seq<u8>) -> Option<
    Result<FlakeInspectionModel, Seq<char>>,
> {
    let query = QueryModel::DecodeInspection(bytes);
    if obs.contains_key(query) && obs[query] is Inspection {
        Some(obs[query]->Inspection_0)
    } else {
        None
    }
}

/// What is known of the build outputs that some bytes encode.
pub open spec fn built_of(obs: ObsModel, bytes: Seq<u8>) -> Option<
    Result<Seq<FlakeBuildOutputModel>, Seq<char>>,
> {
    let query = QueryModel::DecodeBuild(bytes);
    if obs.contains_key(query) && obs[query] is Built {
        Some(obs[query]->Built_0)
    } else {
        None
    }
}

/// What is known of a collection's metadata file.
pub open spec fn collection_meta_of(obs: ObsModel, path: Seq<char>) -> Option<
    Result<ToolchainCollectionMetaModel, CollectionErrorModel>,
> {
    let query = QueryModel::LoadCollectionMeta(path);
    if obs.contains_key(query) && obs[query] is CollectionMeta {
        Some(obs[query]->CollectionMeta_0)
    } else {
        None
    }
}

/// The observations made so far.
#[derive(Debug)]
pub struct Observations {
    answers: Table<Query, Answer>,
}

impl Model for Observations {
    type M = ObsModel;

    closed spec fn model(&self) -> ObsModel {
        self.answers.model()
    }
}

impl Observations {
    /// No observation at all.
    pub fn new() -> (none: Self)
        ensures
            none.model() == Map::<QueryModel, AnswerModel>::empty(),
    {
        let none = Observations { answers: Table::new() };
        assert(none.model() =~= Map::<QueryModel, AnswerModel>::empty());
        none
    }

    /// Records the answer to a query. An answer of another kind than the
    /// query asks for is not kept.
    pub fn record(&mut self, query: Query, answer: Answer) -> (kept: bool)
        ensures
            kept == fits(query.model(), answer.model()),
            kept ==> final(self).model() == old(self).model().insert(
                query.model(),
                answer.model(),
            ),
            !kept ==> final(self).model() == old(self).model(),
    {
        let kept = match (&query, &answer) {
            (Query::Stat(_), Answer::Status(_)) => true,
            (Query::CurrentDir, Answer::Location(_)) => true,
            (Query::CurrentExe, Answer::Location(_)) => true,
            (Query::Run(_), Answer::Output(_)) => true,
            (Query::DecodeInspection(_), Answer::Inspection(_)) => true,
            (Query::DecodeBuild(_), Answer::Built(_)) => true,
            (Query::LoadCollectionMeta(_), Answer::CollectionMeta(_)) => true,
            _ => false,
        };
        if kept {
            self.answers.put(query, answer);
            assert(self.model() =~= old(self).model().insert(query.model(), answer.model()));
        }
        kept
    }

    /// Whether a query has been answered.
    pub fn knows(&self, query: &Query) -> (known: bool)
        ensures
            known == self.model().contains_key(query.model()),
    {
        self.answers.get(query).is_some()
    }

    /// What is known of a path.
    pub fn stat(&self, path: &str) -> (found: Option<&PathStatus>)
        ensures
            found.model() == status_of(self.model(), path@),
    {
        let query = Query::Stat(owned(path));
        match self.answers.get(&query) {
            Some(Answer::Status(status)) => Some(status),
            _ => None,
        }
    }

    /// What is known of the working directory.
    pub fn current_dir(&self) -> (found: Option<&Result<String, String>>)
        ensures
            found.model() == current_dir_of(self.model()),
    {
        match self.answers.get(&Query::CurrentDir) {
            Some(Answer::Location(location)) => Some(location),
            _ => None,
        }
    }

    /// What is known of the process's own executable.
    pub fn current_exe(&self) -> (found: Option<&Result<String, String>>)
        ensures
            found.model() == current_exe_of(self.model()),
    {
        match self.answers.get(&Query::CurrentExe) {
            Some(Answer::Location(location)) => Some(location),
            _ => None,
        }
    }

    /// What is known of the run that `query` asks for. Nothing is known of
    /// a run where the query asks for something else.
    pub fn output(&self, query: &Query) -> (found: Option<&Result<ProcessOutput, String>>)
        ensures
            found.model() == match query.model() {
                QueryModel::Run(command) => output_of(self.model(), command),
                _ => None,
            },
    {
        match query {
            Query::Run(_) => match self.answers.get(query) {
                Some(Answer::Output(output)) => Some(output),
                _ => None,
            },
            _ => None,
        }
    }

    /// What is known of the inspection that `query` asks for. Nothing is
    /// known of an inspection where the query asks for something else.
    pub fn inspection(&self, query: &Query) -> (found: Option<&Result<FlakeInspection, String>>)
        ensures
            found.model() == match query.model() {
                QueryModel::DecodeInspection(bytes) => inspection_of(self.model(), bytes),
                _ => None,
            },
    {
        match query {
            Query::DecodeInspection(_) => match self.answers.get(query) {
                Some(Answer::Inspection(inspection)) => Some(inspection),
                _ => None,
            },
            _ => None,
        }
    }

    /// What is known of the build outputs that `query` asks for. Nothing is
    /// known of build outputs where the query asks for something else.
    pub fn built(&self, query: &Query) -> (found: Option<&Result<Vec<FlakeBuildOutput>, String>>)
        ensures
            found.model() == match query.model() {
                QueryModel::DecodeBuild(bytes) => built_of(self.model(), bytes),
                _ => None,
            },
    {
        match query {
            Query::DecodeBuild(_) => match self.answers.get(query) {
                Some(Answer::Built(built)) => Some(built),
                _ => None,
            },
            _ => None,
        }
    }

    /// What is known of a collection's metadata file.
    pub fn collection_meta(&self, path: &str) -> (found: Option<
        &Result<ToolchainCollectionMeta, CollectionError>,
    >)
        ensures
            found.model() == collection_meta_of(self.model(), path@),
    {
        let query = Query::LoadCollectionMeta(owned(path));
        match self.answers.get(&query) {
            Some(Answer::CollectionMeta(meta)) => Some(meta),
            _ => None,
        }
    }
}

/// Where a decision stands: it needs a query answered, or it is made.
#[derive(Debug, Clone)]
pub enum Step<T> {
    Need(Query),
    Done(T),
}

pub ghost enum StepModel<T> {
    Need(QueryModel),
    Done(T),
}

impl<T: Model> Model for Step<T> {
    type M = StepModel<T::M>;

    open spec fn model(&self) -> StepModel<T::M> {
        match self {
            Step::Need(query) => StepModel::Need(query.model()),
            Step::Done(value) => StepModel::Done(value.model()),
        }
    }
}

/// Whether a query has an answer of its kind.
pub open spec fn answered(obs: ObsModel, query: QueryModel) -> bool {
    obs.contains_key(query) && fits(query, obs[query])
}

/// Whether `later` holds every answer that `earlier` holds.
pub open spec fn extends(later: ObsModel, earlier: ObsModel) -> bool {
    forall|query: QueryModel| #[trigger]
        answered(earlier, query) ==> later.contains_key(query) && later[query] == earlier[query]
}

/// What makes a decision safe to ask again and again: a query that it
/// needs is one that has no answer yet, and a result that it has given is
/// the result that it gives with every later state of the observations.
pub open spec fn settled<T>(
    before: StepModel<T>,
    after: StepModel<T>,
    earlier: ObsModel,
) -> bool {
    match before {
        StepModel::Need(query) => !answered(earlier, query),
        StepModel::Done(_) => after == before,
    }
}

/// Recording the answer to a query that had none keeps every earlier answer.
pub proof fn lemma_record_extends(obs: ObsModel, query: QueryModel, answer: AnswerModel)
    requires
        !answered(obs, query),
    ensures
        extends(obs.insert(query, answer), obs),
{
}

/// Observations hold what they held.
pub proof fn lemma_extends_itself(obs: ObsModel)
    ensures
        extends(obs, obs),
{
}

/// What is known stays known, and stays the same, as observations are added.
pub proof fn lemma_known_stays(earlier: ObsModel, later: ObsModel)
    requires
        extends(later, earlier),
    ensures
        forall|path: Seq<char>| (#[trigger] status_of(earlier, path)) is Some ==> status_of(later, path) == status_of(earlier, path),
        forall|path: Seq<char>| (#[trigger] status_of(earlier, path)) is None ==> !answered(earlier, QueryModel::Stat(path)),
        current_dir_of(earlier) is Some ==> current_dir_of(later) == current_dir_of(earlier),
        current_dir_of(earlier) is None ==> !answered(earlier, QueryModel::CurrentDir),
        current_exe_of(earlier) is Some ==> current_exe_of(later) == current_exe_of(earlier),
        current_exe_of(earlier) is None ==> !answered(earlier, QueryModel::CurrentExe),
        forall|command: Seq<Seq<char>>| (#[trigger] output_of(earlier, command)) is Some ==> output_of(later, command) == output_of(earlier, command),
        forall|command: Seq<Seq<char>>| (#[trigger] output_of(earlier, command)) is None ==> !answered(earlier, QueryModel::Run(command)),
        forall|bytes: Seq<u8>| (#[trigger] inspection_of(earlier, bytes)) is Some ==> inspection_of(later, bytes) == inspection_of(earlier, bytes),
        forall|bytes: Seq<u8>| (#[trigger] inspection_of(earlier, bytes)) is None ==> !answered(earlier, QueryModel::DecodeInspection(bytes)),
        forall|bytes: Seq<u8>| (#[trigger] built_of(earlier, bytes)) is Some ==> built_of(later, bytes) == built_of(earlier, bytes),
        forall|bytes: Seq<u8>| (#[trigger] built_of(earlier, bytes)) is None ==> !answered(earlier, QueryModel::DecodeBuild(bytes)),
        forall|path: Seq<char>| (#[trigger] collection_meta_of(earlier, path)) is Some ==> collection_meta_of(later, path) == collection_meta_of(earlier, path),
        forall|path: Seq<char>| (#[trigger] collection_meta_of(earlier, path)) is None ==> !answered(earlier, QueryModel::LoadCollectionMeta(path)),
{
    assert forall|path: Seq<char>| (#[trigger] status_of(earlier, path)) is Some implies status_of(
        later,
        path,
    ) == status_of(earlier, path) by {
        assert(answered(earlier, QueryModel::Stat(path)));
    }
    if current_dir_of(earlier) is Some {
        assert(answered(earlier, QueryModel::CurrentDir));
    }
    if current_exe_of(earlier) is Some {
        assert(answered(earlier, QueryModel::CurrentExe));
    }
    assert forall|command: Seq<Seq<char>>| (#[trigger] output_of(earlier, command)) is Some implies output_of(
        later,
        command,
    ) == output_of(earlier, command) by {
        assert(answered(earlier, QueryModel::Run(command)));
    }
    assert forall|bytes: Seq<u8>| (#[trigger] inspection_of(earlier, bytes)) is Some implies inspection_of(
        later,
        bytes,
    ) == inspection_of(earlier, bytes) by {
        assert(answered(earlier, QueryModel::DecodeInspection(bytes)));
    }
    assert forall|bytes: Seq<u8>| (#[trigger] built_of(earlier, bytes)) is Some implies built_of(
        later,
        bytes,
    ) == built_of(earlier, bytes) by {
        assert(answered(earlier, QueryModel::DecodeBuild(bytes)));
    }
    assert forall|path: Seq<char>| (#[trigger] collection_meta_of(earlier, path)) is Some implies collection_meta_of(
        later,
        path,
    ) == collection_meta_of(earlier, path) by {
        assert(answered(earlier, QueryModel::LoadCollectionMeta(path)));
    }
}

} // verus!
