//! A verified search-and-archive library: extracting search hits from result-page
//! markup, the retry protocol that drives a browser tab to readiness, the run
//! orchestration that isolates per-page failures, and the archive document.

pub mod archive;
pub mod bootstrap;
pub mod extract;
pub mod model;
pub mod nav;
pub mod percent;
pub mod run;
pub mod strutil;

pub use model::SearchResult;
