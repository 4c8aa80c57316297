# data_poller

Polls remote datasets listed on an HTML page, transforms them and stores the
results, each pipeline on a schedule of its own.

- `src/` is the verified library: the walk over a listing and its checkpoint
  (`ingestion`), the two orchestrators (`orchestration`, `named_orchestration`),
  the configuration and how it becomes pipelines (`config`), the stages of a
  run (`traits`), file naming for storage (`storage`), and the trusted calls
  into `url` and `scraper` (`web`).
- `app/` is the command-line program: it reads the YAML configuration, fetches
  listing pages, queries parquet files with DataFusion, writes results, and
  runs each pipeline in a task of its own.
- `tests/` exercises the library on concrete values.
