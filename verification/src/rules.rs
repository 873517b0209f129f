//! The catalogs: for each tool, the sources its rules come from.

pub mod grab_mitre;
pub mod qradar;
pub mod rule_menu;
pub mod sigma;
pub mod splunk;
pub mod suricata;
pub mod sysmon;
pub mod ui_rule;
pub mod velociraptor;
pub mod yara;
pub mod zeek;
