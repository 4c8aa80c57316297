pub mod config;
pub mod ingestion;
pub mod named_orchestration;
pub mod orchestration;
pub mod storage;
pub mod text;
pub mod traits;
pub mod transformation;
pub mod web;
