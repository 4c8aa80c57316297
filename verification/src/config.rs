//! The configuration of an orchestrator, and how it is turned into pipelines.
use vstd::prelude::*;

use crate::ingestion::{ingestor_setup_error, HtmlListDataFusionIngestor, IngestorView};
use crate::named_orchestration::{
    entry_names, register, Orchestrator, PipelineSchedule, ScheduledPipeline, ScheduledView,
};
use crate::storage::{ConsoleStorer, DatasetStorer, FilePathStorer};
use crate::text::prefixed;
use crate::traits::Pipeline;
use crate::transformation::IdentityTransformer;
use crate::web::{url_parse, UrlParts};

verus! {

/// A pipeline of the dataset kind.
pub type DatasetPipeline = Pipeline<HtmlListDataFusionIngestor, IdentityTransformer, DatasetStorer>;

/// Where a dataset pipeline stores, as plain values.
pub enum StorerView {
    Console,
    FilePath(Seq<char>),
}

/// A dataset pipeline, as plain values.
pub struct DatasetPipelineView {
    pub ingestor: IngestorView,
    pub storer: StorerView,
}

/// The storer as plain values.
pub open spec fn storer_view(s: DatasetStorer) -> StorerView {
    match s {
        DatasetStorer::Console(_) => StorerView::Console,
        DatasetStorer::FilePath(f) => StorerView::FilePath(f.file_path_view()),
    }
}

/// The pipeline as plain values.
pub open spec fn pipeline_view(p: DatasetPipeline) -> DatasetPipelineView {
    DatasetPipelineView { ingestor: p.ingestor_view()@, storer: storer_view(p.storer_view()) }
}

/// The entries of an orchestrator of dataset pipelines, as plain values.
pub open spec fn summary(entries: Seq<ScheduledView<DatasetPipeline>>) -> Seq<
    ScheduledView<DatasetPipelineView>,
> {
    entries.map_values(
        |e: ScheduledView<DatasetPipeline>|
            ScheduledView { name: e.name, pipeline: pipeline_view(e.pipeline), schedule: e.schedule },
    )
}

/// The entries after registering each of `entries` in turn.
pub open spec fn register_all<V>(entries: Seq<ScheduledView<V>>) -> Seq<ScheduledView<V>>
    decreases entries.len(),
{
    if entries.len() == 0 {
        Seq::empty()
    } else {
        register(register_all(entries.drop_last()), entries.last())
    }
}

/// Why a configuration could not be turned into what it describes.
#[derive(Debug)]
pub enum ConfigError {
    CreationError(String),
}

impl ConfigError {
    /// The text this error is shown with.
    pub open spec fn describe(&self) -> Seq<char> {
        match self {
            ConfigError::CreationError(m) => "Failed to create ingestor: "@ + m@,
        }
    }

    pub fn message(&self) -> (r: String)
        ensures
            r@ == self.describe(),
    {
        match self {
            ConfigError::CreationError(m) => prefixed("Failed to create ingestor: ", m.as_str()),
        }
    }
}

/// How a dataset is ingested.
#[derive(Debug, PartialEq)]
pub enum DatasetIngestorConfig {
    HtmlListDataFusion {
        tree_path: String,
        sub_path: String,
        target_url: String,
        query: String,
        ingest_from_back: bool,
    },
}

/// The message of the `CreationError` that an ingestor configuration is
/// refused with, or `None` when it is accepted.
pub open spec fn ingestor_config_error(c: DatasetIngestorConfig) -> Option<Seq<char>> {
    match c {
        DatasetIngestorConfig::HtmlListDataFusion { tree_path, sub_path, target_url, .. } => {
            match ingestor_setup_error(tree_path@, sub_path@, target_url@) {
                Some(e) => Some("Failed to create ingestor: "@ + ("Failed to ingest data: "@ + e)),
                None => None,
            }
        },
    }
}

/// The ingestor that an accepted configuration describes.
pub open spec fn configured_ingestor(c: DatasetIngestorConfig) -> IngestorView {
    match c {
        DatasetIngestorConfig::HtmlListDataFusion {
            tree_path,
            sub_path,
            target_url,
            query,
            ingest_from_back,
        } => IngestorView {
            tree_path: tree_path@,
            sub_path: sub_path@,
            target: url_parse(target_url@)->Ok_0,
            query: query@,
            ingest_from_back,
            checkpoint: None,
        },
    }
}

impl DatasetIngestorConfig {
    /// Builds the ingestor this configuration describes.
    pub fn to_ingestor(&self) -> (r: Result<HtmlListDataFusionIngestor, ConfigError>)
        ensures
            r is Ok <==> ingestor_config_error(*self) is None,
            r is Ok ==> r->Ok_0@ == configured_ingestor(*self),
            r is Ok ==> match *self {
                DatasetIngestorConfig::HtmlListDataFusion {
                    tree_path,
                    sub_path,
                    target_url,
                    query,
                    ingest_from_back,
                } => {
                    &&& r->Ok_0@.tree_path == tree_path@
                    &&& r->Ok_0@.sub_path == sub_path@
                    &&& url_parse(target_url@) == Ok::<UrlParts, Seq<char>>(r->Ok_0@.target)
                    &&& r->Ok_0@.query == query@
                    &&& r->Ok_0@.ingest_from_back == ingest_from_back
                    &&& r->Ok_0@.checkpoint is None
                },
            },
            r is Err ==> (r->Err_0 matches ConfigError::CreationError(m) && m@
                == ingestor_config_error(*self)->Some_0),
    {
        match self {
            DatasetIngestorConfig::HtmlListDataFusion {
                tree_path,
                sub_path,
                target_url,
                query,
                ingest_from_back,
            } => {
                let built = HtmlListDataFusionIngestor::new(
                    tree_path.clone(),
                    sub_path.clone(),
                    target_url.as_str(),
                    query.as_str(),
                    Some(*ingest_from_back),
                );
                match built {
                    Ok(i) => Ok(i),
                    Err(e) => {
                        let m = e.message();
                        Err(ConfigError::CreationError(prefixed("Failed to create ingestor: ", m.as_str())))
                    },
                }
            },
        }
    }
}

/// How a dataset is transformed.
#[derive(Debug, PartialEq)]
pub enum DatasetTransformerConfig {
    Identity,
}

impl DatasetTransformerConfig {
    /// Builds the transformer this configuration describes.
    pub fn to_transformer(&self) -> (r: Result<IdentityTransformer, ConfigError>)
        ensures
            r is Ok,
    {
        match self {
            DatasetTransformerConfig::Identity => Ok(IdentityTransformer),
        }
    }
}

/// How a dataset is stored.
#[derive(Debug, PartialEq)]
pub enum DatasetStorerConfig {
    Console,
    FilePath { file_path: String },
}

/// The storer that a configuration describes.
pub open spec fn configured_storer(c: DatasetStorerConfig) -> StorerView {
    match c {
        DatasetStorerConfig::Console => StorerView::Console,
        DatasetStorerConfig::FilePath { file_path } => StorerView::FilePath(file_path@),
    }
}

impl DatasetStorerConfig {
    /// Builds the storer this configuration describes.
    pub fn to_storer(&self) -> (r: Result<DatasetStorer, ConfigError>)
        ensures
            r is Ok,
            r is Ok ==> storer_view(r->Ok_0) == configured_storer(*self),
    {
        match self {
            DatasetStorerConfig::Console => Ok(DatasetStorer::Console(ConsoleStorer::new())),
            DatasetStorerConfig::FilePath { file_path } => Ok(
                DatasetStorer::FilePath(FilePathStorer::new(file_path.clone())),
            ),
        }
    }
}

/// The three stages of a dataset pipeline.
#[derive(Debug, PartialEq)]
pub struct DatasetPipelineConfig {
    pub ingestor: DatasetIngestorConfig,
    pub transformer: DatasetTransformerConfig,
    pub storer: DatasetStorerConfig,
}

/// The pipeline that an accepted configuration describes.
pub open spec fn configured_pipeline(c: DatasetPipelineConfig) -> DatasetPipelineView {
    DatasetPipelineView {
        ingestor: configured_ingestor(c.ingestor),
        storer: configured_storer(c.storer),
    }
}

impl DatasetPipelineConfig {
    /// Builds the three stages; only the ingestor can be refused.
    pub fn to_pipeline(&self) -> (r: Result<DatasetPipeline, ConfigError>)
        ensures
            r is Ok <==> ingestor_config_error(self.ingestor) is None,
            r is Ok ==> pipeline_view(r->Ok_0) == configured_pipeline(*self),
            r is Err ==> (r->Err_0 matches ConfigError::CreationError(m) && m@
                == ingestor_config_error(self.ingestor)->Some_0),
    {
        let ingestor = match self.ingestor.to_ingestor() {
            Ok(i) => i,
            Err(e) => {
                return Err(e);
            },
        };
        let transformer = match self.transformer.to_transformer() {
            Ok(t) => t,
            Err(e) => {
                return Err(e);
            },
        };
        let storer = match self.storer.to_storer() {
            Ok(s) => s,
            Err(e) => {
                return Err(e);
            },
        };
        Ok(Pipeline::new(ingestor, transformer, storer))
    }
}

/// The kinds of pipeline a configuration can describe.
#[derive(Debug, PartialEq)]
pub enum PipelineConfig {
    Dataset(DatasetPipelineConfig),
}

/// The message of the `CreationError` that a pipeline configuration is
/// refused with, or `None` when it is accepted.
pub open spec fn pipeline_config_error(c: PipelineConfig) -> Option<Seq<char>> {
    match c {
        PipelineConfig::Dataset(d) => ingestor_config_error(d.ingestor),
    }
}

/// The pipeline that an accepted configuration describes.
pub open spec fn configured_dataset_pipeline(c: PipelineConfig) -> DatasetPipelineView {
    match c {
        PipelineConfig::Dataset(d) => configured_pipeline(d),
    }
}

impl PipelineConfig {
    /// Builds the pipeline this configuration describes.
    pub fn to_pipeline(&self) -> (r: Result<DatasetPipeline, ConfigError>)
        ensures
            r is Ok <==> pipeline_config_error(*self) is None,
            r is Ok ==> pipeline_view(r->Ok_0) == configured_dataset_pipeline(*self),
            r is Err ==> (r->Err_0 matches ConfigError::CreationError(m) && m@
                == pipeline_config_error(*self)->Some_0),
    {
        match self {
            PipelineConfig::Dataset(config) => config.to_pipeline(),
        }
    }
}

/// A named pipeline and its schedule.
#[derive(Debug, PartialEq)]
pub struct ScheduledPipelineConfig {
    pub name: String,
    pub pipeline: PipelineConfig,
    pub schedule: PipelineSchedule,
}

/// The message of the `CreationError` that a scheduled pipeline configuration
/// is refused with, or `None` when it is accepted.
pub open spec fn scheduled_config_error(c: ScheduledPipelineConfig) -> Option<Seq<char>> {
    match pipeline_config_error(c.pipeline) {
        Some(e) => Some(e),
        None => if c.schedule.millis() > 0 {
            None
        } else {
            Some(
                "Failed to create scheduled pipeline: "@ + ("Failed to create scheduled pipeline: "@
                    + "Schedule must be greater than zero"@),
            )
        },
    }
}

/// A scheduled pipeline whose pipeline is accepted is refused exactly when its
/// schedule is zero milliseconds: any positive schedule, however long, is
/// accepted.
pub proof fn only_a_zero_schedule_is_refused(c: ScheduledPipelineConfig)
    ensures
        scheduled_config_error(c) is None <==> (pipeline_config_error(c.pipeline) is None
            && c.schedule.millis() > 0),
        pipeline_config_error(c.pipeline) is Some ==> scheduled_config_error(c) == pipeline_config_error(
            c.pipeline,
        ),
{
}

/// The ingestor that an accepted configuration describes keeps every
/// configured setting: the two selectors, the parsed address, the query and
/// the walking direction, with no checkpoint yet.
pub proof fn configured_ingestor_keeps_settings(
    tree_path: String,
    sub_path: String,
    target_url: String,
    query: String,
    ingest_from_back: bool,
)
    ensures
        ({
            let v = configured_ingestor(
                DatasetIngestorConfig::HtmlListDataFusion {
                    tree_path,
                    sub_path,
                    target_url,
                    query,
                    ingest_from_back,
                },
            );
            &&& v.tree_path == tree_path@
            &&& v.sub_path == sub_path@
            &&& v.target == url_parse(target_url@)->Ok_0
            &&& v.query == query@
            &&& v.ingest_from_back == ingest_from_back
            &&& v.checkpoint is None
        }),
{
}

/// The scheduled pipeline that an accepted configuration describes.
pub open spec fn configured_entry(c: ScheduledPipelineConfig) -> ScheduledView<DatasetPipelineView> {
    ScheduledView {
        name: c.name@,
        pipeline: configured_dataset_pipeline(c.pipeline),
        schedule: c.schedule,
    }
}

/// The scheduled pipeline as plain values.
pub open spec fn entry_view(e: ScheduledView<DatasetPipeline>) -> ScheduledView<DatasetPipelineView> {
    ScheduledView { name: e.name, pipeline: pipeline_view(e.pipeline), schedule: e.schedule }
}

impl ScheduledPipelineConfig {
    /// Builds the pipeline and pairs it with its name and schedule.
    pub fn to_scheduled_pipeline(&self) -> (r: Result<ScheduledPipeline<DatasetPipeline>, ConfigError>)
        ensures
            r is Ok <==> scheduled_config_error(*self) is None,
            r is Ok <==> (pipeline_config_error(self.pipeline) is None && self.schedule.millis() > 0),
            r is Ok ==> entry_view(r->Ok_0@) == configured_entry(*self),
            r is Ok ==> r->Ok_0@.name == self.name@ && r->Ok_0@.schedule == self.schedule,
            r is Err ==> (r->Err_0 matches ConfigError::CreationError(m) && m@
                == scheduled_config_error(*self)->Some_0),
    {
        let pipeline = match self.pipeline.to_pipeline() {
            Ok(p) => p,
            Err(e) => {
                return Err(e);
            },
        };
        match ScheduledPipeline::new(self.name.clone(), pipeline, self.schedule) {
            Ok(sp) => Ok(sp),
            Err(e) => {
                let m = e.message();
                Err(
                    ConfigError::CreationError(
                        prefixed("Failed to create scheduled pipeline: ", m.as_str()),
                    ),
                )
            },
        }
    }
}

/// The message of the first refused configuration among `configs`, if any.
pub open spec fn first_config_error(configs: Seq<ScheduledPipelineConfig>) -> Option<Seq<char>>
    decreases configs.len(),
{
    if configs.len() == 0 {
        None
    } else {
        match first_config_error(configs.drop_last()) {
            Some(e) => Some(e),
            None => scheduled_config_error(configs.last()),
        }
    }
}

/// The scheduled pipelines that accepted configurations describe, in order.
pub open spec fn configured_entries(configs: Seq<ScheduledPipelineConfig>) -> Seq<
    ScheduledView<DatasetPipelineView>,
> {
    configs.map_values(|c: ScheduledPipelineConfig| configured_entry(c))
}

/// A refusal among the first `k` configurations is the first refusal of all.
proof fn lemma_first_error_prefix(configs: Seq<ScheduledPipelineConfig>, k: int)
    requires
        0 <= k <= configs.len(),
        first_config_error(configs.take(k)) is Some,
    ensures
        first_config_error(configs) == first_config_error(configs.take(k)),
    decreases configs.len(),
{
    if k < configs.len() {
        assert(configs.drop_last().take(k) =~= configs.take(k));
        lemma_first_error_prefix(configs.drop_last(), k);
    } else {
        assert(configs.take(k) =~= configs);
    }
}

/// Registering commutes with taking entries to plain values.
proof fn lemma_summary_register(
    entries: Seq<ScheduledView<DatasetPipeline>>,
    entry: ScheduledView<DatasetPipeline>,
)
    ensures
        summary(register(entries, entry)) == register(summary(entries), entry_view(entry)),
{
    assert(entry_names(summary(entries)) =~= entry_names(entries));
    if !entry_names(entries).contains(entry.name) {
        assert(summary(entries.push(entry)) =~= summary(entries).push(entry_view(entry)));
    }
}

/// When no two entries share a name, registering them all keeps every one of
/// them, in order.
pub proof fn distinct_names_are_all_registered<V>(entries: Seq<ScheduledView<V>>)
    requires
        entry_names(entries).no_duplicates(),
    ensures
        register_all(entries) == entries,
    decreases entries.len(),
{
    if entries.len() > 0 {
        let init = entries.drop_last();
        assert(entry_names(init) =~= entry_names(entries).drop_last());
        distinct_names_are_all_registered(init);
        assert(!entry_names(init).contains(entries.last().name)) by {
            if entry_names(init).contains(entries.last().name) {
                let j = choose|j: int| 0 <= j < init.len() && entry_names(init)[j] == entries.last().name;
                assert(entry_names(entries)[j] == entry_names(entries)[entries.len() - 1]);
            }
        }
        assert(init.push(entries.last()) =~= entries);
    }
}

/// The pipelines an orchestrator runs.
#[derive(Debug, PartialEq)]
pub struct OrchestratorConfig {
    pub pipelines: Vec<ScheduledPipelineConfig>,
}

impl OrchestratorConfig {
    /// Builds every configured pipeline and registers it; a pipeline whose
    /// name is already registered is passed over.
    pub fn to_orchestrator(&self) -> (r: Result<Orchestrator<DatasetPipeline>, ConfigError>)
        ensures
            r is Ok <==> first_config_error(self.pipelines@) is None,
            r is Ok ==> summary(r->Ok_0@) == register_all(configured_entries(self.pipelines@)),
            r is Err ==> (r->Err_0 matches ConfigError::CreationError(m) && m@ == first_config_error(
                self.pipelines@,
            )->Some_0),
            r is Ok ==> entry_names(r->Ok_0@).no_duplicates(),
    {
        let ghost configs = self.pipelines@;
        let ghost entries = configured_entries(configs);
        let mut orchestrator: Orchestrator<DatasetPipeline> = Orchestrator::new();
        let n = self.pipelines.len();
        assert(summary(orchestrator@) =~= register_all(entries.take(0)));
        for i in 0..n
            invariant
                n == self.pipelines.len(),
                configs == self.pipelines@,
                entries == configured_entries(configs),
                first_config_error(configs.take(i as int)) is None,
                summary(orchestrator@) == register_all(entries.take(i as int)),
                entry_names(orchestrator@).no_duplicates(),
        {
            proof {
                assert(configs.take(i + 1).drop_last() =~= configs.take(i as int));
                assert(entries.take(i + 1).drop_last() =~= entries.take(i as int));
            }
            let scheduled = match self.pipelines[i].to_scheduled_pipeline() {
                Ok(sp) => sp,
                Err(e) => {
                    proof {
                        lemma_first_error_prefix(configs, i + 1);
                    }
                    return Err(e);
                },
            };
            let ghost before = orchestrator@;
            let ghost added = scheduled@;
            let _ = orchestrator.add_scheduled_pipeline(scheduled);
            proof {
                lemma_summary_register(before, added);
            }
        }
        assert(configs.take(n as int) =~= configs);
        assert(entries.take(n as int) =~= entries);
        Ok(orchestrator)
    }
}

} // verus!
