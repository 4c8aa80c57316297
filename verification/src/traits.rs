//! Datasets, the errors of the three pipeline stages, and the pipeline that
//! chains them.
use vstd::prelude::*;

use crate::text::prefixed;

verus! {

/// Errors of the ingestion stage.
#[derive(Debug)]
pub enum IngestionError {
    SourceNotAvailable(String),
    ExtractError(String),
    LoadError(String),
    InternalError(String),
}

impl IngestionError {
    /// The text this error is shown with.
    pub open spec fn describe(&self) -> Seq<char> {
        match self {
            IngestionError::SourceNotAvailable(m) => "Failed to ingest data: "@ + m@,
            IngestionError::ExtractError(m) => "Failed to ingest data: "@ + m@,
            IngestionError::LoadError(m) => "Failed to load data: "@ + m@,
            IngestionError::InternalError(m) => "Internal Error: "@ + m@,
        }
    }

    pub fn message(&self) -> (r: String)
        ensures
            r@ == self.describe(),
    {
        match self {
            IngestionError::SourceNotAvailable(m) => prefixed("Failed to ingest data: ", m.as_str()),
            IngestionError::ExtractError(m) => prefixed("Failed to ingest data: ", m.as_str()),
            IngestionError::LoadError(m) => prefixed("Failed to load data: ", m.as_str()),
            IngestionError::InternalError(m) => prefixed("Internal Error: ", m.as_str()),
        }
    }
}

/// Errors of the transformation stage.
#[derive(Debug)]
pub enum TransformationError {
    CorruptData(String),
}

impl TransformationError {
    /// The text this error is shown with.
    pub open spec fn describe(&self) -> Seq<char> {
        match self {
            TransformationError::CorruptData(m) => "Failed to transform data: "@ + m@,
        }
    }

    pub fn message(&self) -> (r: String)
        ensures
            r@ == self.describe(),
    {
        match self {
            TransformationError::CorruptData(m) => prefixed("Failed to transform data: ", m.as_str()),
        }
    }
}

/// Errors of the storage stage.
#[derive(Debug)]
pub enum StorageError {
    StorageUnavailable(String),
    WriteError(String),
}

impl StorageError {
    /// The text this error is shown with.
    pub open spec fn describe(&self) -> Seq<char> {
        match self {
            StorageError::StorageUnavailable(m) => "Failed to store data: "@ + m@,
            StorageError::WriteError(m) => "Failed to write data: "@ + m@,
        }
    }

    pub fn message(&self) -> (r: String)
        ensures
            r@ == self.describe(),
    {
        match self {
            StorageError::StorageUnavailable(m) => prefixed("Failed to store data: ", m.as_str()),
            StorageError::WriteError(m) => prefixed("Failed to write data: ", m.as_str()),
        }
    }
}

/// The error of a pipeline run: the failure of one of its stages.
#[derive(Debug)]
pub enum PipelineError {
    Ingest(IngestionError),
    Transform(TransformationError),
    Store(StorageError),
}

impl PipelineError {
    /// The text this error is shown with.
    pub open spec fn describe(&self) -> Seq<char> {
        match self {
            PipelineError::Ingest(e) => "Ingestion failed: "@ + e.describe(),
            PipelineError::Transform(e) => "Transformation failed: "@ + e.describe(),
            PipelineError::Store(e) => "Storage failed: "@ + e.describe(),
        }
    }

    pub fn message(&self) -> (r: String)
        ensures
            r@ == self.describe(),
    {
        match self {
            PipelineError::Ingest(e) => {
                let m = e.message();
                prefixed("Ingestion failed: ", m.as_str())
            },
            PipelineError::Transform(e) => {
                let m = e.message();
                prefixed("Transformation failed: ", m.as_str())
            },
            PipelineError::Store(e) => {
                let m = e.message();
                prefixed("Storage failed: ", m.as_str())
            },
        }
    }
}

/// A named piece of data.
#[derive(Debug)]
pub struct Dataset<T> {
    name: String,
    data: T,
}

impl<T> Dataset<T> {
    /// The dataset's name.
    pub closed spec fn name_view(&self) -> Seq<char> {
        self.name@
    }

    /// The dataset's data.
    pub closed spec fn data_view(&self) -> T {
        self.data
    }

    pub fn new(name: &str, data: T) -> (r: Self)
        ensures
            r.name_view() == name@,
            r.data_view() == data,
    {
        Dataset { name: name.to_owned(), data }
    }

    pub fn get_name(&self) -> (r: &str)
        ensures
            r@ == self.name_view(),
    {
        self.name.as_str()
    }

    pub fn get_data(&self) -> (r: T)
        where T: Clone
        ensures
            cloned(self.data_view(), r),
    {
        self.data.clone()
    }
}

/// What one ingestion hands on: nothing new, or a dataset.
#[derive(Debug)]
pub enum DatasetDto<T> {
    Nothing,
    DataFrame(Dataset<T>),
}

impl<T> DatasetDto<T> {
    /// The name of the dataset, if there is one.
    pub fn get_name(&self) -> (r: Option<&str>)
        ensures
            match self {
                DatasetDto::Nothing => r is None,
                DatasetDto::DataFrame(d) => r is Some && r->Some_0@ == d.name_view(),
            },
    {
        match self {
            DatasetDto::Nothing => None,
            DatasetDto::DataFrame(d) => Some(d.get_name()),
        }
    }

    /// A copy of the data, if there is one.
    pub fn get_as_dataframe(&self) -> (r: Option<T>)
        where T: Clone
        ensures
            match self {
                DatasetDto::Nothing => r is None,
                DatasetDto::DataFrame(d) => r is Some && cloned(d.data_view(), r->Some_0),
            },
    {
        match self {
            DatasetDto::Nothing => None,
            DatasetDto::DataFrame(d) => Some(d.get_data()),
        }
    }
}

/// Ingests data, transforms it and stores the result.
#[derive(Debug)]
pub struct Pipeline<I, X, S> {
    ingestor: I,
    transformer: X,
    storer: S,
}

impl<I, X, S> Pipeline<I, X, S> {
    /// The stage that ingests.
    pub closed spec fn ingestor_view(&self) -> I {
        self.ingestor
    }

    /// The stage that transforms.
    pub closed spec fn transformer_view(&self) -> X {
        self.transformer
    }

    /// The stage that stores.
    pub closed spec fn storer_view(&self) -> S {
        self.storer
    }

    pub fn new(ingestor: I, transformer: X, storer: S) -> (r: Self)
        ensures
            r.ingestor_view() == ingestor,
            r.transformer_view() == transformer,
            r.storer_view() == storer,
    {
        Pipeline { ingestor, transformer, storer }
    }

    pub fn ingestor(&self) -> (r: &I)
        ensures
            *r == self.ingestor_view(),
    {
        &self.ingestor
    }

    pub fn transformer(&self) -> (r: &X)
        ensures
            *r == self.transformer_view(),
    {
        &self.transformer
    }

    pub fn storer(&self) -> (r: &S)
        ensures
            *r == self.storer_view(),
    {
        &self.storer
    }

    /// The three stages, taken apart.
    pub fn into_parts(self) -> (r: (I, X, S))
        ensures
            r.0 == self.ingestor_view(),
            r.1 == self.transformer_view(),
            r.2 == self.storer_view(),
    {
        (self.ingestor, self.transformer, self.storer)
    }
}

/// Where a pipeline run stands: the stage to perform next, with its input, or
/// the run's outcome.
#[derive(Debug)]
pub enum RunStage<T, S> {
    Ingest,
    Transform(T),
    Store(S),
    Done(Result<(), PipelineError>),
}

/// What the stage just performed gave.
#[derive(Debug)]
pub enum StageOutcome<T, S> {
    Ingested(Result<T, IngestionError>),
    Transformed(Result<S, TransformationError>),
    Stored(Result<(), StorageError>),
}

/// The stage that follows an outcome: the next stage on success, the end of
/// the run with the stage's error on failure.
pub open spec fn stage_after<T, S>(outcome: StageOutcome<T, S>) -> RunStage<T, S> {
    match outcome {
        StageOutcome::Ingested(Ok(t)) => RunStage::Transform(t),
        StageOutcome::Ingested(Err(e)) => RunStage::Done(Err(PipelineError::Ingest(e))),
        StageOutcome::Transformed(Ok(s)) => RunStage::Store(s),
        StageOutcome::Transformed(Err(e)) => RunStage::Done(Err(PipelineError::Transform(e))),
        StageOutcome::Stored(Ok(())) => RunStage::Done(Ok(())),
        StageOutcome::Stored(Err(e)) => RunStage::Done(Err(PipelineError::Store(e))),
    }
}

/// The first stage of every run.
pub fn first_stage<T, S>() -> (r: RunStage<T, S>)
    ensures
        r is Ingest,
{
    RunStage::Ingest
}

/// Advances a run by the outcome of the stage just performed.
pub fn next_stage<T, S>(outcome: StageOutcome<T, S>) -> (r: RunStage<T, S>)
    ensures
        r == stage_after(outcome),
{
    match outcome {
        StageOutcome::Ingested(Ok(t)) => RunStage::Transform(t),
        StageOutcome::Ingested(Err(e)) => RunStage::Done(Err(PipelineError::Ingest(e))),
        StageOutcome::Transformed(Ok(s)) => RunStage::Store(s),
        StageOutcome::Transformed(Err(e)) => RunStage::Done(Err(PipelineError::Transform(e))),
        StageOutcome::Stored(Ok(())) => RunStage::Done(Ok(())),
        StageOutcome::Stored(Err(e)) => RunStage::Done(Err(PipelineError::Store(e))),
    }
}

/// A run that went through the three stages in turn ends well exactly when all
/// three succeeded; otherwise it ends with the error of the first stage that
/// failed, and the stages after it are not performed.
pub proof fn run_ends_at_first_failure<T, S>(
    ingested: Result<T, IngestionError>,
    transformed: Result<S, TransformationError>,
    stored: Result<(), StorageError>,
)
    ensures
        ingested is Err ==> stage_after::<T, S>(StageOutcome::Ingested(ingested)) == RunStage::<T, S>::Done(
            Err(PipelineError::Ingest(ingested->Err_0)),
        ),
        ingested is Ok ==> stage_after::<T, S>(StageOutcome::Ingested(ingested)) == RunStage::<T, S>::Transform(
            ingested->Ok_0,
        ),
        transformed is Err ==> stage_after::<T, S>(StageOutcome::Transformed(transformed))
            == RunStage::<T, S>::Done(Err(PipelineError::Transform(transformed->Err_0))),
        transformed is Ok ==> stage_after::<T, S>(StageOutcome::Transformed(transformed))
            == RunStage::<T, S>::Store(transformed->Ok_0),
        stage_after::<T, S>(StageOutcome::Stored(stored)) matches RunStage::Done(res) && (res is Ok
            <==> stored is Ok),
{
}

} // verus!
