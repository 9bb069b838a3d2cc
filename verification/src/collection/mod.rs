//! A directory of installed toolchains.

use vstd::prelude::*;
use crate::environment::{raw_var, EnvModel, Environment, COLLECTION_VAR};
use crate::error::{CollectionError, CollectionErrorModel, Error, ErrorModel};
use crate::model::Model;
use crate::paths::{join, path_join};
use crate::text::{chain3, owned};
use crate::world::{
    collection_meta_of, extends, lemma_known_stays, settled, status_of, ObsModel, Observations,
    Query, QueryModel, Step, StepModel,
};

verus! {

/// What a collection says of itself.
#[derive(Debug, Clone, PartialEq, Eq)]
pub struct ToolchainCollectionMeta {
    /// The platform that the collection's toolchains run on.
    pub host_platform: String,
}

pub ghost struct ToolchainCollectionMetaModel {
    pub host_platform: Seq<char>,
}

impl Model for ToolchainCollectionMeta {
    type M = ToolchainCollectionMetaModel;

    open spec fn model(&self) -> ToolchainCollectionMetaModel {
        ToolchainCollectionMetaModel { host_platform: self.host_platform@ }
    }
}

/// The name of the file that holds a collection's metadata.
pub const META_FILE: &'static str = "collection.json";

/// The directory of a toolchain that holds its executables.
pub const BIN_DIR: &'static str = "bin";

/// A collection of toolchains: a directory with one subdirectory for each.
#[derive(Debug, Clone, PartialEq, Eq)]
pub struct ToolchainCollection {
    collection_dir: String,
    meta: ToolchainCollectionMeta,
}

pub ghost struct ToolchainCollectionModel {
    pub collection_dir: Seq<char>,
    pub meta: ToolchainCollectionMetaModel,
}

impl Model for ToolchainCollection {
    type M = ToolchainCollectionModel;

    closed spec fn model(&self) -> ToolchainCollectionModel {
        ToolchainCollectionModel { collection_dir: self.collection_dir@, meta: self.meta.model() }
    }
}

/// The result of looking for a toolchain directory.
pub type DirStep = StepModel<Result<Seq<char>, CollectionErrorModel>>;

/// The result of looking for a tool: the toolchain directory and the executable.
pub type ToolStep = StepModel<Result<(Seq<char>, Seq<char>), ErrorModel>>;

/// The names under which a default toolchain is looked for, in this order.
pub open spec fn default_names() -> Seq<Seq<char>> {
    seq!["default"@, "stable"@, "beta"@, "nightly"@]
}

/// A toolchain's name with the host platform appended.
pub open spec fn qualified_name(name: Seq<char>, host_platform: Seq<char>) -> Seq<char> {
    name + "-"@ + host_platform
}

/// The executable of a tool inside a toolchain directory.
pub open spec fn tool_in(toolchain_dir: Seq<char>, tool: Seq<char>) -> Seq<char> {
    path_join(path_join(toolchain_dir, BIN_DIR@), tool)
}

impl ToolchainCollectionModel {
    /// The directory of the toolchain with exactly this name. The name has to
    /// lead to something, and what it leads to has to have a canonical form
    /// that is a directory; that canonical form is the toolchain directory.
    pub open spec fn raw_dir(self, obs: ObsModel, raw_name: Seq<char>) -> DirStep {
        let candidate = path_join(self.collection_dir, raw_name);
        let not_found = CollectionErrorModel::ToolchainNotFound(raw_name);
        match status_of(obs, candidate) {
            None => StepModel::Need(QueryModel::Stat(candidate)),
            Some(status) => if !status.exists {
                StepModel::Done(Err(not_found))
            } else {
                match status.canonical {
                    Err(report) => StepModel::Done(Err(CollectionErrorModel::Io(report))),
                    Ok(canonical) => match status_of(obs, canonical) {
                        None => StepModel::Need(QueryModel::Stat(canonical)),
                        Some(target) => if target.is_dir {
                            StepModel::Done(Ok(canonical))
                        } else {
                            StepModel::Done(Err(not_found))
                        },
                    },
                }
            },
        }
    }

    /// The directory of the toolchain of this name: under the name itself,
    /// or else under the name with the host platform appended.
    pub open spec fn named_dir(self, obs: ObsModel, name: Seq<char>) -> DirStep {
        match self.raw_dir(obs, name) {
            StepModel::Done(Err(CollectionErrorModel::ToolchainNotFound(_))) => self.raw_dir(
                obs,
                qualified_name(name, self.meta.host_platform),
            ),
            found => found,
        }
    }

    /// The directory of the first default name from `from` on that has one.
    pub open spec fn default_dir_from(self, obs: ObsModel, from: int) -> DirStep
        decreases 4 - from,
    {
        if from < 0 || from >= 4 {
            StepModel::Done(
                Err(CollectionErrorModel::ToolchainNotFound("default, stable, beta, or nightly"@)),
            )
        } else {
            match self.named_dir(obs, default_names()[from]) {
                StepModel::Done(Err(CollectionErrorModel::ToolchainNotFound(_))) => {
                    self.default_dir_from(obs, from + 1)
                },
                found => found,
            }
        }
    }

    /// The directory of the default toolchain.
    pub open spec fn default_dir(self, obs: ObsModel) -> DirStep {
        self.default_dir_from(obs, 0)
    }

    /// The tool in the default toolchain, for a request that the toolchain
    /// at `asked` could not serve.
    pub open spec fn fallback_tool(self, obs: ObsModel, tool: Seq<char>, asked: Seq<char>) -> ToolStep {
        let missing = ErrorModel::ToolchainDoesNotProvideTool { path: asked, tool };
        match self.default_dir(obs) {
            StepModel::Need(query) => StepModel::Need(query),
            StepModel::Done(Err(CollectionErrorModel::ToolchainNotFound(_))) => StepModel::Done(
                Err(missing),
            ),
            StepModel::Done(Err(error)) => StepModel::Done(Err(ErrorModel::Collection(error))),
            StepModel::Done(Ok(fallback)) => match status_of(obs, tool_in(fallback, tool)) {
                None => StepModel::Need(QueryModel::Stat(tool_in(fallback, tool))),
                Some(status) => if status.is_file {
                    StepModel::Done(Ok((fallback, tool_in(fallback, tool))))
                } else {
                    StepModel::Done(Err(missing))
                },
            },
        }
    }

    /// The tool in the toolchain that was asked for, or in the default
    /// toolchain where none was asked for. Where a toolchain was asked for by
    /// name and lacks the tool, and falling back is allowed, the default
    /// toolchain serves instead if it has the tool.
    pub open spec fn found_tool(
        self,
        obs: ObsModel,
        tool: Seq<char>,
        toolchain: Option<Seq<char>>,
        allow_fallback: bool,
    ) -> ToolStep {
        let chosen = match toolchain {
            Some(name) => self.named_dir(obs, name),
            None => self.default_dir(obs),
        };
        match chosen {
            StepModel::Need(query) => StepModel::Need(query),
            StepModel::Done(Err(error)) => StepModel::Done(Err(ErrorModel::Collection(error))),
            StepModel::Done(Ok(dir)) => match status_of(obs, tool_in(dir, tool)) {
                None => StepModel::Need(QueryModel::Stat(tool_in(dir, tool))),
                Some(status) => if status.is_file {
                    StepModel::Done(Ok((dir, tool_in(dir, tool))))
                } else if allow_fallback && toolchain is Some {
                    self.fallback_tool(obs, tool, dir)
                } else {
                    StepModel::Done(
                        Err(ErrorModel::ToolchainDoesNotProvideTool { path: dir, tool }),
                    )
                },
            },
        }
    }
}

/// The collection that a directory holds, as far as its metadata file tells.
pub open spec fn loaded_from(obs: ObsModel, collection_dir: Seq<char>) -> StepModel<
    Result<ToolchainCollectionModel, CollectionErrorModel>,
> {
    let meta_path = path_join(collection_dir, META_FILE@);
    match collection_meta_of(obs, meta_path) {
        None => StepModel::Need(QueryModel::LoadCollectionMeta(meta_path)),
        Some(Err(error)) => StepModel::Done(Err(error)),
        Some(Ok(meta)) => StepModel::Done(Ok(ToolchainCollectionModel { collection_dir, meta })),
    }
}

/// The collection that the environment points to. There is none where the
/// variable is not set, and none where loading fails.
pub open spec fn collection_of(env: EnvModel, obs: ObsModel) -> StepModel<
    Option<ToolchainCollectionModel>,
> {
    match raw_var(env, COLLECTION_VAR@) {
        None => StepModel::Done(None),
        Some(dir) => match loaded_from(obs, dir) {
            StepModel::Need(query) => StepModel::Need(query),
            StepModel::Done(Err(_)) => StepModel::Done(None),
            StepModel::Done(Ok(collection)) => StepModel::Done(Some(collection)),
        },
    }
}

/// The default toolchain is the first of `default`, `stable`, `beta` and
/// `nightly` that is there: where the names before one have no directory and
/// that one has, its directory is the default toolchain's.
pub proof fn lemma_default_is_first_present(
    collection: ToolchainCollectionModel,
    obs: ObsModel,
    at: int,
)
    requires
        0 <= at < 4,
        forall|j: int|
            0 <= j < at ==> (#[trigger] collection.named_dir(obs, default_names()[j]))
                matches StepModel::Done(Err(CollectionErrorModel::ToolchainNotFound(_))),
        collection.named_dir(obs, default_names()[at]) matches StepModel::Done(Ok(_)),
    ensures
        collection.default_dir(obs) == collection.named_dir(obs, default_names()[at]),
{
    reveal_with_fuel(ToolchainCollectionModel::default_dir_from, 5);
    if at > 0 {
        assert(collection.named_dir(obs, default_names()[0]) is Done);
    }
    if at > 1 {
        assert(collection.named_dir(obs, default_names()[1]) is Done);
    }
    if at > 2 {
        assert(collection.named_dir(obs, default_names()[2]) is Done);
    }
}

/// Where none of the four default names has a directory, there is no default toolchain.
pub proof fn lemma_default_absent(collection: ToolchainCollectionModel, obs: ObsModel)
    requires
        forall|j: int|
            0 <= j < 4 ==> (#[trigger] collection.named_dir(obs, default_names()[j]))
                matches StepModel::Done(Err(CollectionErrorModel::ToolchainNotFound(_))),
    ensures
        collection.default_dir(obs) == StepModel::<
            Result<Seq<char>, CollectionErrorModel>,
        >::Done(
            Err(CollectionErrorModel::ToolchainNotFound("default, stable, beta, or nightly"@)),
        ),
{
    reveal_with_fuel(ToolchainCollectionModel::default_dir_from, 5);
    assert(collection.named_dir(obs, default_names()[0]) is Done);
    assert(collection.named_dir(obs, default_names()[1]) is Done);
    assert(collection.named_dir(obs, default_names()[2]) is Done);
    assert(collection.named_dir(obs, default_names()[3]) is Done);
}

/// A toolchain directory that was found is a directory, and is in canonical form.
pub proof fn lemma_found_dir_is_directory(
    collection: ToolchainCollectionModel,
    obs: ObsModel,
    name: Seq<char>,
)
    ensures
        collection.named_dir(obs, name) matches StepModel::Done(Ok(dir)) ==> status_of(obs, dir)
            matches Some(status) && status.is_dir,
{
}

/// A name that has no directory of its own is looked up once more with the
/// host platform appended, and what is found there is the toolchain.
pub proof fn lemma_platform_suffix_retry(
    collection: ToolchainCollectionModel,
    obs: ObsModel,
    name: Seq<char>,
)
    requires
        collection.raw_dir(obs, name) matches StepModel::Done(
            Err(CollectionErrorModel::ToolchainNotFound(_)),
        ),
    ensures
        collection.named_dir(obs, name) == collection.raw_dir(
            obs,
            qualified_name(name, collection.meta.host_platform),
        ),
{
}

/// With falling back allowed, a named toolchain that lacks the tool does not
/// fail the search as long as the default toolchain has the tool: the
/// default toolchain's directory and executable are the result.
pub proof fn lemma_fallback_serves(
    collection: ToolchainCollectionModel,
    obs: ObsModel,
    tool: Seq<char>,
    name: Seq<char>,
)
    requires
        collection.named_dir(obs, name) matches StepModel::Done(Ok(dir)) && (status_of(
            obs,
            tool_in(dir, tool),
        ) matches Some(status) && !status.is_file),
        collection.default_dir(obs) matches StepModel::Done(Ok(fallback)) && (status_of(
            obs,
            tool_in(fallback, tool),
        ) matches Some(status) && status.is_file),
    ensures
        collection.default_dir(obs) matches StepModel::Done(Ok(fallback))
            && collection.found_tool(obs, tool, Some(name), true) == StepModel::<
            Result<(Seq<char>, Seq<char>), ErrorModel>,
        >::Done(Ok((fallback, tool_in(fallback, tool)))),
{
}

fn default_name(at: usize) -> (name: &'static str)
    requires
        at < 4,
    ensures
        name@ == default_names()[at as int],
{
    if at == 0 {
        "default"
    } else if at == 1 {
        "stable"
    } else if at == 2 {
        "beta"
    } else {
        "nightly"
    }
}

impl ToolchainCollection {
    /// The collection in the directory `collection_dir` with the metadata `meta`.
    pub fn new(collection_dir: String, meta: ToolchainCollectionMeta) -> (collection: Self)
        ensures
            collection.model() == (ToolchainCollectionModel {
                collection_dir: collection_dir@,
                meta: meta.model(),
            }),
    {
        ToolchainCollection { collection_dir, meta }
    }

    /// The collection that the environment points to.
    pub fn find(env: &Environment, obs: &Observations) -> (found: Step<Option<Self>>)
        ensures
            found.model() == collection_of(env.model(), obs.model()),
    {
        match env.var_os(COLLECTION_VAR) {
            None => Step::Done(None),
            Some(dir) => match Self::from_directory(obs, dir) {
                Step::Need(query) => Step::Need(query),
                Step::Done(Err(_)) => Step::Done(None),
                Step::Done(Ok(collection)) => Step::Done(Some(collection)),
            },
        }
    }

    /// The collection in the directory `collection_dir`.
    pub fn from_directory(obs: &Observations, collection_dir: &str) -> (loaded: Step<
        Result<Self, CollectionError>,
    >)
        ensures
            loaded.model() == loaded_from(obs.model(), collection_dir@),
    {
        let meta_path = join(collection_dir, META_FILE);
        match obs.collection_meta(meta_path.as_str()) {
            None => Step::Need(Query::LoadCollectionMeta(meta_path)),
            Some(Err(error)) => Step::Done(Err(error.duplicate())),
            Some(Ok(meta)) => Step::Done(
                Ok(
                    ToolchainCollection {
                        collection_dir: owned(collection_dir),
                        meta: ToolchainCollectionMeta { host_platform: meta.host_platform.clone() },
                    },
                ),
            ),
        }
    }

    /// The directory of the collection.
    pub fn collection_dir(&self) -> (dir: &str)
        ensures
            dir@ == self.model().collection_dir,
    {
        self.collection_dir.as_str()
    }

    /// What the collection says of itself.
    pub fn meta(&self) -> (meta: &ToolchainCollectionMeta)
        ensures
            meta.model() == self.model().meta,
    {
        &self.meta
    }

    /// Finds a tool in the collection: the directory of its toolchain and its executable.
    pub fn find_tool(
        &self,
        obs: &Observations,
        tool_name: &str,
        toolchain_name: Option<&str>,
        allow_fallback: bool,
    ) -> (found: Step<Result<(String, String), Error>>)
        ensures
            found.model() == self.model().found_tool(
                obs.model(),
                tool_name@,
                toolchain_name.model(),
                allow_fallback,
            ),
    {
        let chosen = match toolchain_name {
            Some(name) => self.toolchain_dir(obs, name),
            None => self.default_toolchain_dir(obs),
        };
        let toolchain_dir = match chosen {
            Step::Need(query) => {
                return Step::Need(query);
            },
            Step::Done(Err(error)) => {
                return Step::Done(Err(Error::Collection(error)));
            },
            Step::Done(Ok(dir)) => dir,
        };
        let tool_exe = join(join(toolchain_dir.as_str(), BIN_DIR).as_str(), tool_name);
        let is_file = match obs.stat(tool_exe.as_str()) {
            None => {
                return Step::Need(Query::Stat(tool_exe));
            },
            Some(status) => status.is_file,
        };
        if is_file {
            return Step::Done(Ok((toolchain_dir, tool_exe)));
        }
        if allow_fallback && toolchain_name.is_some() {
            let fallback_dir = match self.default_toolchain_dir(obs) {
                Step::Need(query) => {
                    return Step::Need(query);
                },
                Step::Done(Err(CollectionError::ToolchainNotFound(_))) => {
                    return Step::Done(
                        Err(
                            Error::ToolchainDoesNotProvideTool {
                                path: toolchain_dir,
                                tool: owned(tool_name),
                            },
                        ),
                    );
                },
                Step::Done(Err(error)) => {
                    return Step::Done(Err(Error::Collection(error)));
                },
                Step::Done(Ok(dir)) => dir,
            };
            let fallback_exe = join(join(fallback_dir.as_str(), BIN_DIR).as_str(), tool_name);
            match obs.stat(fallback_exe.as_str()) {
                None => {
                    return Step::Need(Query::Stat(fallback_exe));
                },
                Some(status) => {
                    if status.is_file {
                        return Step::Done(Ok((fallback_dir, fallback_exe)));
                    }
                },
            }
        }
        Step::Done(
            Err(Error::ToolchainDoesNotProvideTool { path: toolchain_dir, tool: owned(tool_name) }),
        )
    }

    /// The directory of the default toolchain: that of the first of
    /// `default`, `stable`, `beta` and `nightly` that is installed.
    pub fn default_toolchain_dir(&self, obs: &Observations) -> (found: Step<
        Result<String, CollectionError>,
    >)
        ensures
            found.model() == self.model().default_dir(obs.model()),
    {
        let mut at: usize = 0;
        while at < 4
            invariant
                at <= 4,
                self.model().default_dir(obs.model()) == self.model().default_dir_from(
                    obs.model(),
                    at as int,
                ),
            decreases 4 - at,
        {
            match self.toolchain_dir(obs, default_name(at)) {
                Step::Done(Err(CollectionError::ToolchainNotFound(_))) => {},
                found => {
                    return found;
                },
            }
            at = at + 1;
        }
        Step::Done(
            Err(CollectionError::ToolchainNotFound(owned("default, stable, beta, or nightly"))),
        )
    }

    /// The directory of the toolchain `toolchain_name`.
    pub fn toolchain_dir(&self, obs: &Observations, toolchain_name: &str) -> (found: Step<
        Result<String, CollectionError>,
    >)
        ensures
            found.model() == self.model().named_dir(obs.model(), toolchain_name@),
    {
        match self.toolchain_dir_raw(obs, toolchain_name) {
            Step::Done(Err(CollectionError::ToolchainNotFound(_))) => {
                let qualified = chain3(toolchain_name, "-", self.meta.host_platform.as_str());
                self.toolchain_dir_raw(obs, qualified.as_str())
            },
            found => found,
        }
    }

    /// The directory of the toolchain that is installed under exactly the name `raw_name`.
    pub fn toolchain_dir_raw(&self, obs: &Observations, raw_name: &str) -> (found: Step<
        Result<String, CollectionError>,
    >)
        ensures
            found.model() == self.model().raw_dir(obs.model(), raw_name@),
    {
        let candidate = join(self.collection_dir.as_str(), raw_name);
        let status = match obs.stat(candidate.as_str()) {
            None => {
                return Step::Need(Query::Stat(candidate));
            },
            Some(status) => status,
        };
        if !status.exists {
            return Step::Done(Err(CollectionError::ToolchainNotFound(owned(raw_name))));
        }
        let canonical = match &status.canonical {
            Err(report) => {
                return Step::Done(Err(CollectionError::Io(report.clone())));
            },
            Ok(canonical) => canonical.clone(),
        };
        let is_dir = match obs.stat(canonical.as_str()) {
            None => {
                return Step::Need(Query::Stat(canonical));
            },
            Some(target) => target.is_dir,
        };
        if is_dir {
            Step::Done(Ok(canonical))
        } else {
            Step::Done(Err(CollectionError::ToolchainNotFound(owned(raw_name))))
        }
    }
}

/// The search for a toolchain directory is settled.
pub proof fn lemma_named_dir_settled(
    collection: ToolchainCollectionModel,
    earlier: ObsModel,
    later: ObsModel,
    name: Seq<char>,
)
    requires
        extends(later, earlier),
    ensures
        settled(collection.raw_dir(earlier, name), collection.raw_dir(later, name), earlier),
        settled(collection.named_dir(earlier, name), collection.named_dir(later, name), earlier),
{
    lemma_known_stays(earlier, later);
}

/// The search for the default toolchain is settled.
pub proof fn lemma_default_dir_settled(
    collection: ToolchainCollectionModel,
    earlier: ObsModel,
    later: ObsModel,
    from: int,
)
    requires
        extends(later, earlier),
    ensures
        settled(
            collection.default_dir_from(earlier, from),
            collection.default_dir_from(later, from),
            earlier,
        ),
    decreases 4 - from,
{
    if 0 <= from < 4 {
        lemma_named_dir_settled(collection, earlier, later, default_names()[from]);
        lemma_default_dir_settled(collection, earlier, later, from + 1);
    }
}

/// The search for a tool in the collection is settled.
pub proof fn lemma_found_tool_settled(
    collection: ToolchainCollectionModel,
    earlier: ObsModel,
    later: ObsModel,
    tool: Seq<char>,
    toolchain: Option<Seq<char>>,
    allow_fallback: bool,
)
    requires
        extends(later, earlier),
    ensures
        settled(
            collection.found_tool(earlier, tool, toolchain, allow_fallback),
            collection.found_tool(later, tool, toolchain, allow_fallback),
            earlier,
        ),
{
    lemma_known_stays(earlier, later);
    lemma_default_dir_settled(collection, earlier, later, 0);
    if let Some(name) = toolchain {
        lemma_named_dir_settled(collection, earlier, later, name);
    }
}

/// The loading of the collection is settled.
pub proof fn lemma_collection_settled(env: EnvModel, earlier: ObsModel, later: ObsModel)
    requires
        extends(later, earlier),
    ensures
        settled(collection_of(env, earlier), collection_of(env, later), earlier),
{
    lemma_known_stays(earlier, later);
}

} // verus!
