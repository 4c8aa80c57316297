use data_poller::traits::{
    first_stage, next_stage, Dataset, IngestionError, Pipeline, PipelineError, RunStage,
    StageOutcome, StorageError, TransformationError,
};
use data_poller::transformation::IdentityTransformer;

#[test]
fn test_identity_transformer() {
    let transformer = IdentityTransformer;
    let input = "test data".to_string();
    let output = transformer.transform(input.clone()).unwrap();
    assert_eq!(input, output);
}

#[test]
fn dataset_keeps_name_and_data() {
    let d = Dataset::new("test_dataset", vec![1, 2]);
    assert_eq!(d.get_name(), "test_dataset");
    assert_eq!(d.get_data(), vec![1, 2]);
}

#[test]
fn pipeline_keeps_its_stages() {
    let p = Pipeline::new(1u8, "t", 3u16);
    assert_eq!(*p.ingestor(), 1);
    assert_eq!(*p.transformer(), "t");
    assert_eq!(*p.storer(), 3);
    assert_eq!(p.into_parts(), (1, "t", 3));
}

#[test]
fn test_pipeline() {
    assert!(matches!(first_stage::<u8, u8>(), RunStage::Ingest));
    let s: RunStage<String, String> = next_stage(StageOutcome::Ingested(Ok("raw data".to_string())));
    let input = match s {
        RunStage::Transform(t) => t,
        _ => panic!("expected the transform stage"),
    };
    let s: RunStage<String, String> = next_stage(StageOutcome::Transformed(Ok(input.to_uppercase())));
    let output = match s {
        RunStage::Store(o) => o,
        _ => panic!("expected the store stage"),
    };
    assert_eq!(output, "RAW DATA");
    let s: RunStage<String, String> = next_stage(StageOutcome::Stored(Ok(())));
    assert!(matches!(s, RunStage::Done(Ok(()))));
}

#[test]
fn run_stops_at_the_failing_stage() {
    let s: RunStage<u8, u8> = next_stage(StageOutcome::Ingested(Err(IngestionError::LoadError("l".to_string()))));
    match s {
        RunStage::Done(Err(e)) => assert_eq!(e.message(), "Ingestion failed: Failed to load data: l"),
        _ => panic!("expected a failed run"),
    }
    let s: RunStage<u8, u8> = next_stage(StageOutcome::Transformed(Err(TransformationError::CorruptData("c".to_string()))));
    match s {
        RunStage::Done(Err(e)) => {
            assert_eq!(e.message(), "Transformation failed: Failed to transform data: c")
        }
        _ => panic!("expected a failed run"),
    }
    let s: RunStage<u8, u8> = next_stage(StageOutcome::Stored(Err(StorageError::StorageUnavailable("s".to_string()))));
    assert!(matches!(s, RunStage::Done(Err(PipelineError::Store(_)))));
}

#[test]
fn error_messages() {
    assert_eq!(
        IngestionError::SourceNotAvailable("x".to_string()).message(),
        "Failed to ingest data: x"
    );
    assert_eq!(IngestionError::InternalError("m".to_string()).message(), "Internal Error: m");
    assert_eq!(
        StorageError::WriteError("w".to_string()).message(),
        "Failed to write data: w"
    );
    assert_eq!(
        StorageError::StorageUnavailable("u".to_string()).message(),
        "Failed to store data: u"
    );
}
