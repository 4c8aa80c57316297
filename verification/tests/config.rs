use data_poller::config::{
    ConfigError, DatasetIngestorConfig, DatasetPipelineConfig, DatasetStorerConfig,
    DatasetTransformerConfig, OrchestratorConfig, PipelineConfig, ScheduledPipelineConfig,
};
use data_poller::named_orchestration::PipelineSchedule;
use data_poller::storage::DatasetStorer;

fn ingestor_config(tree_path: &str, target_url: &str) -> DatasetIngestorConfig {
    DatasetIngestorConfig::HtmlListDataFusion {
        tree_path: tree_path.to_string(),
        sub_path: "sub".to_string(),
        target_url: target_url.to_string(),
        query: "SELECT *".to_string(),
        ingest_from_back: true,
    }
}

fn pipeline_config(tree_path: &str, target_url: &str) -> DatasetPipelineConfig {
    DatasetPipelineConfig {
        ingestor: ingestor_config(tree_path, target_url),
        transformer: DatasetTransformerConfig::Identity,
        storer: DatasetStorerConfig::Console,
    }
}

fn scheduled(name: &str, tree_path: &str, ms: u64) -> ScheduledPipelineConfig {
    ScheduledPipelineConfig {
        name: name.to_string(),
        pipeline: PipelineConfig::Dataset(pipeline_config(tree_path, "http://example.com")),
        schedule: PipelineSchedule::FixedMsInterval(ms),
    }
}

#[test]
fn test_orchestrator_config_to_orchestrator() {
    let config = OrchestratorConfig {
        pipelines: vec![ScheduledPipelineConfig {
            name: "Test Pipeline".into(),
            pipeline: PipelineConfig::Dataset(DatasetPipelineConfig {
                ingestor: DatasetIngestorConfig::HtmlListDataFusion {
                    tree_path: "tree".into(),
                    sub_path: "sub".into(),
                    target_url: "http://example.com".into(),
                    query: "SELECT *".into(),
                    ingest_from_back: true,
                },
                transformer: DatasetTransformerConfig::Identity,
                storer: DatasetStorerConfig::Console,
            }),
            schedule: PipelineSchedule::FixedMsInterval(1000),
        }],
    };
    let orchestrator = config.to_orchestrator();
    assert!(orchestrator.is_ok());
}

#[test]
fn test_pipeline_config_to_pipeline() {
    let config = DatasetPipelineConfig {
        ingestor: DatasetIngestorConfig::HtmlListDataFusion {
            tree_path: "tree".into(),
            sub_path: "sub".into(),
            target_url: "http://example.com".into(),
            query: "SELECT *".into(),
            ingest_from_back: true,
        },
        transformer: DatasetTransformerConfig::Identity,
        storer: DatasetStorerConfig::Console,
    };
    let pipeline = config.to_pipeline();
    assert!(pipeline.is_ok());
}

#[test]
fn test_ingestor_config_to_ingestor() {
    let config = DatasetIngestorConfig::HtmlListDataFusion {
        tree_path: "tree".into(),
        sub_path: "sub".into(),
        target_url: "http://example.com".into(),
        query: "SELECT *".into(),
        ingest_from_back: true,
    };

    let ingestor = config.to_ingestor();
    assert!(ingestor.is_ok());
}

#[test]
fn test_transformer_config_to_transformer() {
    let config = DatasetTransformerConfig::Identity;
    let transformer = config.to_transformer();
    assert!(transformer.is_ok());
}

#[test]
fn test_storer_config_to_storer() {
    let file_config = DatasetStorerConfig::FilePath {
        file_path: "output.txt".into(),
    };
    let file_storer = file_config.to_storer();
    assert!(file_storer.is_ok());
}

#[test]
fn configured_ingestor_keeps_its_settings() {
    let ingestor = ingestor_config("div#list span", "http://example.com/files").to_ingestor().unwrap();
    assert_eq!(ingestor.query(), "SELECT *");
    assert!(ingestor.ingest_from_back());
    assert!(ingestor.checkpoint().is_none());
    assert_eq!(ingestor.target_url().href(), "http://example.com/files");
}

#[test]
fn invalid_tree_path_is_refused_with_its_message() {
    let err = ingestor_config("div[", "http://example.com").to_ingestor().unwrap_err();
    let ConfigError::CreationError(m) = err;
    assert!(m.starts_with(
        "Failed to create ingestor: Failed to ingest data: Failed to create extractor: Failed to initialize HtmlExtractor: Invalid tree path: "
    ));
}

#[test]
fn invalid_target_url_is_refused_with_its_message() {
    let err = ingestor_config("tree", "not a url").to_ingestor().unwrap_err();
    let ConfigError::CreationError(m) = err;
    assert_eq!(
        m,
        "Failed to create ingestor: Failed to ingest data: Invalid file URL: relative URL without a base"
    );
}

#[test]
fn file_storer_keeps_its_path() {
    let storer = DatasetStorerConfig::FilePath { file_path: "out".into() }.to_storer().unwrap();
    match storer {
        DatasetStorer::FilePath(f) => assert_eq!(f.file_path(), "out"),
        DatasetStorer::Console(_) => panic!("expected a file storer"),
    }
    assert!(matches!(
        DatasetStorerConfig::Console.to_storer().unwrap(),
        DatasetStorer::Console(_)
    ));
}

#[test]
fn zero_schedule_is_refused_with_its_message() {
    let err = scheduled("a", "tree", 0).to_scheduled_pipeline().unwrap_err();
    let ConfigError::CreationError(m) = &err;
    assert_eq!(
        m,
        "Failed to create scheduled pipeline: Failed to create scheduled pipeline: Schedule must be greater than zero"
    );
    assert_eq!(
        err.message(),
        "Failed to create ingestor: Failed to create scheduled pipeline: Failed to create scheduled pipeline: Schedule must be greater than zero"
    );
}

#[test]
fn duplicate_configured_names_keep_the_first() {
    let config = OrchestratorConfig {
        pipelines: vec![scheduled("a", "tree", 10), scheduled("b", "tree", 20), scheduled("a", "tree", 30)],
    };
    let orchestrator = config.to_orchestrator().unwrap();
    let entries = orchestrator.pipelines();
    assert_eq!(entries.len(), 2);
    assert_eq!(entries[0].name(), "a");
    assert_eq!(entries[0].schedule(), PipelineSchedule::FixedMsInterval(10));
    assert_eq!(entries[1].name(), "b");
    assert_eq!(entries[1].schedule(), PipelineSchedule::FixedMsInterval(20));
}

#[test]
fn first_refused_configuration_is_reported() {
    let config = OrchestratorConfig {
        pipelines: vec![scheduled("a", "tree", 10), scheduled("b", "tree", 0), scheduled("c", "div[", 10)],
    };
    let ConfigError::CreationError(m) = config.to_orchestrator().unwrap_err();
    assert!(m.ends_with("Schedule must be greater than zero"));
}

#[test]
fn distinct_configured_names_are_all_registered() {
    let config = OrchestratorConfig {
        pipelines: vec![scheduled("x", "tree", 1), scheduled("y", "tree", 2), scheduled("z", "tree", 3)],
    };
    let orchestrator = config.to_orchestrator().unwrap();
    let names: Vec<&str> = orchestrator.pipelines().iter().map(|p| p.name()).collect();
    assert_eq!(names, vec!["x", "y", "z"]);
}
