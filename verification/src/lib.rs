//! Gathers detection rules and indicator lists from catalogued sources into one
//! local folder per tool.
//!
//! The crate holds the decisions of that work: which files are wanted, what they
//! are called on disk, when an existing file may be replaced, how far a run has
//! come and what it does next. Cloning, fetching, asking and writing are left to
//! the caller, who reports back what happened.

// Texts and patterns.
pub mod text;
pub mod patterns;

// One file: whether it is wanted, what it is called, whether it may replace
// another, and how it is written.
pub mod filter;
pub mod naming;
pub mod overwrite;
pub mod staging;
pub mod fetch;

// A run over many sources.
pub mod progress;
pub mod download;
pub mod jobs;
pub mod log;

// The catalogs of the tools, and what the tool selector does with them.
pub mod rules;

// Rules gathered by crawling.
pub mod links;
pub mod qradar;
pub mod sigma;
pub mod splunk;
pub mod suricata;
pub mod yara;

// Indicators.
pub mod ioc;
pub mod ui_ioc;
pub mod ioc_menu;

// The screens.
pub mod main_menu;
