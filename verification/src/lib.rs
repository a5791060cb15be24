//! Metrics exporter core for a directory server's monitor subtree: the fixed
//! query table, the derivation of metric names from distinguished names, the
//! rendering of attribute values as exposition lines, and the scrape state
//! machine that ties them together.

pub mod duration;
pub mod entry;
pub mod name;
pub mod name_laws;
pub mod plan;
pub mod render;
pub mod scrape;
pub mod scrape_laws;
pub mod text;
