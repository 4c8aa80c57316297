use data_poller::ingestion::{
    concat_groups, dataset_name_from_segments, keep_present, object_store_root, select_next_link, selector_failure,
    target_from_link, DataFusionLoaderError, HtmlExtractor, HtmlExtractorError,
    HtmlListDataFusionIngestor,
};
use data_poller::traits::{DatasetDto, IngestionError};
use data_poller::web::ParsedUrl;

fn links(items: &[&str]) -> Vec<String> {
    items.iter().map(|s| s.to_string()).collect()
}

fn ingestor(from_back: Option<bool>) -> HtmlListDataFusionIngestor {
    HtmlListDataFusionIngestor::new(
        "div#target-area span".to_string(),
        "a".to_string(),
        "http://127.0.0.1:8080",
        "SELECT * FROM remote_parquet",
        from_back,
    )
    .unwrap()
}

#[test]
fn test_extract_hrefs_from_spans_in_div() {
    let html = r#"
            <div id="container">
                <span class="item">
                    <a href="https://rust-lang.org">Rust</a>
                </span>
                <span class="item">
                    <a href="https://crates.io">Crates</a>
                </span>
                <span>No link here</span>
            </div>
            <div id="other">
                <span class="item">
                    <a href="https://google.com">Should ignore this</a>
                </span>
            </div>
        "#;

    let extractor = HtmlExtractor::new("div#container span".to_string(), "a".to_string())
        .expect("Failed to create extractor");

    let links = extractor.extract(html);

    assert_eq!(links.len(), 2);
    assert_eq!(links[0], "https://rust-lang.org");
    assert_eq!(links[1], "https://crates.io");
    assert!(!links.contains(&"https://google.com".to_string()));
}

#[test]
fn anchors_without_href_are_skipped() {
    let html = r#"<div><a>none</a><a href="x">x</a><a name="n">n</a><a href="y">y</a></div>"#;
    let extractor = HtmlExtractor::new("div".to_string(), "a".to_string()).unwrap();
    assert_eq!(extractor.extract(html), links(&["x", "y"]));
    let kept = keep_present(&vec![None, Some("a".to_string()), None, Some("b".to_string())]);
    assert_eq!(kept, links(&["a", "b"]));
}

#[test]
fn invalid_selectors_are_refused() {
    let err = HtmlExtractor::new("div[".to_string(), "a".to_string()).unwrap_err();
    let HtmlExtractorError::InitializationError(m) = &err else { panic!("wrong variant") };
    assert!(m.starts_with("Invalid tree path: "));
    let err = HtmlExtractor::new("div".to_string(), "::".to_string()).unwrap_err();
    let HtmlExtractorError::InitializationError(m) = &err else { panic!("wrong variant") };
    assert!(m.starts_with("Invalid sub path: "));
    assert!(err.message().starts_with("Failed to initialize HtmlExtractor: Invalid sub path: "));
    assert_eq!(
        HtmlExtractorError::UrlLoadError("x".to_string()).message(),
        "Failed to load url: x"
    );
}

#[test]
fn invalid_listing_address_is_refused() {
    let err = HtmlListDataFusionIngestor::new(
        "div".to_string(),
        "a".to_string(),
        "not-a-url",
        "SELECT 1",
        None,
    )
    .unwrap_err();
    assert!(matches!(err, IngestionError::ExtractError(ref m) if m == "Invalid file URL: relative URL without a base"));
}

#[test]
fn next_link_walks_forward_and_backward() {
    let l = links(&["a", "b", "c"]);
    assert_eq!(select_next_link(&l, false, &None), Some("a".to_string()));
    assert_eq!(select_next_link(&l, false, &Some("a".to_string())), Some("b".to_string()));
    assert_eq!(select_next_link(&l, false, &Some("c".to_string())), None);
    assert_eq!(select_next_link(&l, true, &None), Some("c".to_string()));
    assert_eq!(select_next_link(&l, true, &Some("c".to_string())), Some("b".to_string()));
    assert_eq!(select_next_link(&l, true, &Some("a".to_string())), None);
    // A checkpoint that is no longer listed starts the walk over.
    assert_eq!(select_next_link(&l, false, &Some("zzz".to_string())), Some("a".to_string()));
    assert_eq!(select_next_link(&vec![], false, &None), None);
    // With a repeated link, the walk resumes after its first occurrence.
    let d = links(&["a", "b", "a", "c"]);
    assert_eq!(select_next_link(&d, false, &Some("a".to_string())), Some("b".to_string()));
}

#[test]
fn dataset_names_come_from_the_last_path_segment() {
    let u = ParsedUrl::parse("http://host/dir/second.parquet").unwrap();
    assert_eq!(u.href(), "http://host/dir/second.parquet");
    assert_eq!(u.origin(), "http://host");
    assert_eq!(dataset_name_from_segments(u.path_segments()).unwrap(), "second.parquet");
    let root = ParsedUrl::parse("http://host").unwrap();
    assert_eq!(dataset_name_from_segments(root.path_segments()).unwrap(), "");
    let data = ParsedUrl::parse("data:text/plain,HelloWorld").unwrap();
    assert!(data.path_segments().is_none());
    assert!(matches!(
        dataset_name_from_segments(data.path_segments()),
        Err(IngestionError::ExtractError(ref m)) if m == "Failed to extract dataset name from URL"
    ));
    assert!(matches!(
        dataset_name_from_segments(&Some(vec![])),
        Err(IngestionError::ExtractError(_))
    ));
}

#[test]
fn target_from_link_reports_bad_addresses() {
    let err = target_from_link("not-a-url".to_string(), Err("boom".to_string())).unwrap_err();
    assert!(matches!(err, IngestionError::ExtractError(ref m) if m == "Invalid file URL: boom"));
    let t = target_from_link(
        "http://h/x/y.parquet".to_string(),
        ParsedUrl::parse("http://h/x/y.parquet"),
    )
    .unwrap();
    assert_eq!(t.dataset_name, "y.parquet");
    assert_eq!(t.link, "http://h/x/y.parquet");
}

#[test]
fn object_store_root_ends_in_slash() {
    let u = ParsedUrl::parse("http://127.0.0.1:9000/a/b.parquet").unwrap();
    assert_eq!(object_store_root(&u), "http://127.0.0.1:9000/");
    let v = ParsedUrl::parse("https://archive.pmxt.dev/Polymarket/v2").unwrap();
    assert_eq!(object_store_root(&v), "https://archive.pmxt.dev/");
}

#[test]
fn ingestion_walks_the_listing_and_resumes_after_checkpoint() {
    let mut ing = ingestor(Some(false));
    let listing = links(&["http://h/first.parquet", "http://h/second.parquet"]);

    let t = ing.plan_ingest(Some(listing.clone())).unwrap().unwrap();
    assert_eq!(t.dataset_name, "first.parquet");
    let out = ing.finish_ingest(t, Ok::<u32, DataFusionLoaderError>(7)).unwrap();
    assert_eq!(out.get_name(), Some("first.parquet"));
    assert_eq!(out.get_as_dataframe(), Some(7));
    assert_eq!(ing.checkpoint().as_deref(), Some("http://h/first.parquet"));

    let t = ing.plan_ingest(Some(listing.clone())).unwrap().unwrap();
    assert_eq!(t.dataset_name, "second.parquet");
    ing.finish_ingest(t, Ok::<u32, DataFusionLoaderError>(8)).unwrap();

    // Nothing is left to take.
    assert!(ing.plan_ingest(Some(listing.clone())).unwrap().is_none());
    // Nothing listed at all.
    assert!(ing.plan_ingest(Some(vec![])).unwrap().is_none());
}

#[test]
fn ingestion_from_back_starts_at_the_last_link() {
    let ing = ingestor(Some(true));
    let listing = links(&["http://h/first.parquet", "http://h/second.parquet"]);
    let t = ing.plan_ingest(Some(listing)).unwrap().unwrap();
    assert_eq!(t.dataset_name, "second.parquet");
}

#[test]
fn failed_load_keeps_the_checkpoint() {
    let mut ing = ingestor(None);
    let listing = links(&["http://h/first.parquet"]);
    let t = ing.plan_ingest(Some(listing.clone())).unwrap().unwrap();
    let err = ing
        .finish_ingest::<u32>(t, Err(DataFusionLoaderError::QueryError("q".to_string())))
        .unwrap_err();
    assert!(matches!(err, IngestionError::SourceNotAvailable(ref m) if m.is_empty()));
    assert!(ing.checkpoint().is_none());
    let again = ing.plan_ingest(Some(listing)).unwrap().unwrap();
    assert_eq!(again.link, "http://h/first.parquet");
}

#[test]
fn listing_and_link_errors() {
    let ing = ingestor(None);
    let err = ing.plan_ingest(None).unwrap_err();
    assert!(matches!(err, IngestionError::ExtractError(ref m) if m == "Could not extract from url"));
    let err = ing.plan_ingest(Some(links(&["not-a-url"]))).unwrap_err();
    assert!(matches!(err, IngestionError::ExtractError(ref m) if m.starts_with("Invalid file URL: ")));
    assert_eq!(err.message(), "Failed to ingest data: Invalid file URL: relative URL without a base");
    let err = ing.plan_ingest(Some(links(&["data:text/plain,x"]))).unwrap_err();
    assert!(matches!(err, IngestionError::ExtractError(ref m) if m == "Failed to extract dataset name from URL"));
}

#[test]
fn nothing_new_is_an_empty_dataset() {
    let d: DatasetDto<u8> = DatasetDto::Nothing;
    assert_eq!(d.get_name(), None);
    assert_eq!(d.get_as_dataframe(), None);
}

#[test]
fn loader_error_messages() {
    assert_eq!(
        DataFusionLoaderError::ConnectionError("c".to_string()).message(),
        "Failed to establish connection: c"
    );
    assert_eq!(
        DataFusionLoaderError::QueryError("q".to_string()).message(),
        "Failed to execute query: q"
    );
}

#[test]
fn selector_failure_reports_the_first_bad_selector() {
    assert!(selector_failure(None, None).is_none());
    let e = selector_failure(Some("t".to_string()), Some("s".to_string())).unwrap();
    assert!(matches!(e, HtmlExtractorError::InitializationError(ref m) if m == "Invalid tree path: t"));
    let e = selector_failure(None, Some("s".to_string())).unwrap();
    assert!(matches!(e, HtmlExtractorError::InitializationError(ref m) if m == "Invalid sub path: s"));
}

#[test]
fn groups_are_concatenated_in_order() {
    let groups = vec![
        vec![Some("a".to_string()), None],
        vec![],
        vec![Some("b".to_string())],
    ];
    assert_eq!(concat_groups(&groups), vec![Some("a".to_string()), None, Some("b".to_string())]);
    assert!(concat_groups(&vec![]).is_empty());
}
