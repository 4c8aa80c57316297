use data_poller::storage::FilePathStorer;
use data_poller::text::{add_trailing_slash, ends_with};

#[test]
fn parquet_file_path_appends_extension_once() {
    let storer = FilePathStorer::new("/tmp/out".to_string());
    assert_eq!(storer.file_path(), "/tmp/out");
    assert_eq!(storer.parquet_file_path("test_dataset"), "/tmp/out/test_dataset.parquet");
    assert_eq!(storer.parquet_file_path("first.parquet"), "/tmp/out/first.parquet");
    let slashed = FilePathStorer::new("/tmp/out/".to_string());
    assert_eq!(slashed.parquet_file_path("x"), "/tmp/out/x.parquet");
    let here = FilePathStorer::new(String::new());
    assert_eq!(here.parquet_file_path("x.parquet"), "x.parquet");
}

#[test]
fn text_helpers() {
    assert!(ends_with("abc.parquet", ".parquet"));
    assert!(!ends_with("parquet", ".parquet"));
    assert!(ends_with("", ""));
    assert_eq!(add_trailing_slash("http://h"), "http://h/");
    assert_eq!(add_trailing_slash("http://h/"), "http://h/");
    assert_eq!(add_trailing_slash(""), "/");
}
