//! Currency conversion rules: rate lookup, request addresses, symbols and report lines.

pub mod entry;
pub mod menu;
pub mod rates;
pub mod report;
pub mod symbols;
pub mod text_map;
