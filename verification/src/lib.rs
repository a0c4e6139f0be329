pub mod text;
pub mod headers;
pub mod header_parser;
pub mod models;
pub mod connector;
pub mod classifier;
pub mod matcher;
pub mod diagnostics;
pub mod reporting;
pub mod orchestrator;
pub mod time;
pub mod gmail;
pub mod microsoft;
pub mod imap;
pub mod runs;
pub mod laws;
