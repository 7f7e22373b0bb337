//! Verified core of a map tile server: tile format detection, tile archive
//! metadata and layout rules, archive copy planning, source identifiers and
//! layered configuration.

pub mod args;
pub mod config;
pub mod coords;
pub mod copy_run;
pub mod discovery;
pub mod format_detector;
pub mod id_resolver;
pub mod mbtiles;
pub mod metadata;
pub mod pg_config;
pub mod request;
pub mod source;
pub mod string_map;
pub mod table_query;
pub mod text;
pub mod tile_copier;
pub mod tile_info;
pub mod tile_json;
pub mod version;
