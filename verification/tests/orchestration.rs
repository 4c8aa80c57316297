use std::time::Duration;

use data_poller::named_orchestration::{
    Orchestrator, OrchestratorError, PipelineSchedule, ScheduledPipeline, ScheduledPipelineError,
};
use data_poller::orchestration;

struct MockRunnablePipeline;

#[test]
fn test_orchestrator_rejects_duplicate_pipeline_names() {
    let mut orchestrator = Orchestrator::new();

    orchestrator
        .add_pipeline(
            "duplicate-name".to_string(),
            Box::new(MockRunnablePipeline),
            PipelineSchedule::FixedMsInterval(100),
        )
        .unwrap();

    let error = orchestrator
        .add_pipeline(
            "duplicate-name".to_string(),
            Box::new(MockRunnablePipeline),
            PipelineSchedule::FixedMsInterval(100),
        )
        .unwrap_err();

    assert!(matches!(
        error,
        OrchestratorError::DuplicatePipelineName(name) if name == "duplicate-name"
    ));
}

#[test]
fn schedule_validity() {
    assert!(PipelineSchedule::FixedMsInterval(1).is_valid_duration());
    assert!(!PipelineSchedule::FixedMsInterval(0).is_valid_duration());
}

#[test]
fn schedule_to_duration_and_back() {
    let s = PipelineSchedule::FixedMsInterval(1500);
    assert_eq!(s.to_duration(), Duration::from_millis(1500));
    assert_eq!(PipelineSchedule::from(s.to_duration()), s);
    assert_eq!(
        PipelineSchedule::from(Duration::from_secs(2)),
        PipelineSchedule::FixedMsInterval(2000)
    );
}

#[test]
fn zero_schedule_is_refused() {
    let err = ScheduledPipeline::new("p".to_string(), 1u8, PipelineSchedule::FixedMsInterval(0)).unwrap_err();
    let ScheduledPipelineError::CreationError(m) = &err;
    assert_eq!(m, "Schedule must be greater than zero");
    assert_eq!(
        err.message(),
        "Failed to create scheduled pipeline: Schedule must be greater than zero"
    );

    let mut orchestrator = Orchestrator::new();
    let err = orchestrator
        .add_pipeline("p".to_string(), 1u8, PipelineSchedule::FixedMsInterval(0))
        .unwrap_err();
    assert!(matches!(err, OrchestratorError::ScheduledPipelineError(_)));
    assert_eq!(orchestrator.len(), 0);
}

#[test]
fn refused_duplicate_leaves_first_registration() {
    let mut orchestrator = Orchestrator::new();
    orchestrator.add_pipeline("a".to_string(), 1u8, PipelineSchedule::FixedMsInterval(5)).unwrap();
    orchestrator.add_pipeline("b".to_string(), 2u8, PipelineSchedule::FixedMsInterval(6)).unwrap();
    let err = orchestrator.add_pipeline("a".to_string(), 3u8, PipelineSchedule::FixedMsInterval(7)).unwrap_err();
    assert_eq!(err.message(), "Duplicate pipeline name: a");
    assert_eq!(orchestrator.len(), 2);
    assert!(orchestrator.contains_name("a"));
    assert!(!orchestrator.contains_name("c"));
    let first = &orchestrator.pipelines()[0];
    assert_eq!(first.name(), "a");
    assert_eq!(*first.pipeline(), 1u8);
    assert_eq!(first.schedule(), PipelineSchedule::FixedMsInterval(5));
}

#[test]
fn unnamed_orchestrator_keeps_pipelines_in_order() {
    let mut o = orchestration::Orchestrator::new();
    o.add_pipeline("first", 50).unwrap();
    o.add_pipeline("second", 100).unwrap();
    let err = o.add_pipeline("third", 0).unwrap_err();
    assert_eq!(
        err.message(),
        "Failed to create scheduled pipeline: Failed to create scheduled pipeline: Schedule must be greater than zero"
    );
    assert_eq!(o.len(), 2);
    assert_eq!(*o.pipelines()[0].pipeline(), "first");
    assert_eq!(o.pipelines()[1].schedule_millis(), 100);
    assert_eq!(o.pipelines()[1].schedule(), Duration::from_millis(100));
}

#[test]
fn start_error_message() {
    let e = OrchestratorError::StartError("boom".to_string());
    assert_eq!(e.message(), "Failed to start orchestrator: boom");
}
