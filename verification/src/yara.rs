//! YARA rules gathered by crawling: an index repository, repositories cloned
//! whole, and web sources that are rule files or pages of links.

use vstd::prelude::*;
use crate::filter::{has_extension, has_listed_extension};
use crate::links::{ends_in_any, is_rule_url};
use crate::text::strs;

verus! {

/// The repository whose README lists further repositories of rules.
pub open spec fn yara_index_repo_catalog() -> Seq<Seq<char>> {
    seq![
        "https://github.com/InQuest/awesome-yara.git"@,
    ]
}

/// The repository whose README lists further repositories of rules.
pub fn yara_index_repo() -> (v: Vec<&'static str>)
    ensures
        strs(v@) == yara_index_repo_catalog(),
        v@.len() == 1,
{
    let v = vec![
        "https://github.com/InQuest/awesome-yara.git",
    ];
    assert(strs(v@) =~= yara_index_repo_catalog());
    v
}

/// The repositories that hold YARA rules.
pub open spec fn yara_github_repos_catalog() -> Seq<Seq<char>> {
    seq![
        "https://github.com/advanced-threat-research/Yara-Rules.git"@,
        "https://github.com/airbnb/binaryalert/tree/master/rules/public"@,
        "https://github.com/avast/ioc.git"@,
        "https://github.com/chronicle/GCTI.git"@,
        "https://github.com/deadbits/yara-rules.git"@,
        "https://github.com/delivr-to/detections.git"@,
        "https://github.com/dr4k0nia/yara-rules.git"@,
        "https://github.com/elastic/protections-artifacts.git"@,
        "https://github.com/elceef/yara-rulz.git"@,
        "https://github.com/embee-research/Yara-detection-rules.git"@,
        "https://github.com/eset/malware-ioc.git"@,
        "https://github.com/fboldewin/YARA-rules.git"@,
        "https://github.com/JPCERTCC/MalConfScan.git"@,
        "https://github.com/kevoreilly/CAPEv2.git"@,
        "https://github.com/malpedia/signator-rules.git"@,
        "https://github.com/mandiant/red_team_tool_countermeasures.git"@,
        "https://github.com/mikesxrs/Open-Source-YARA-rules.git"@,
        "https://github.com/mthcht/ThreatHunting-Keywords-yara-rules.git"@,
        "https://github.com/Neo23x0/god-mode-rules.git"@,
        "https://github.com/Neo23x0/signature-base.git"@,
        "https://github.com/pmelson/yara_rules.git"@,
        "https://github.com/reversinglabs/reversinglabs-yara-rules.git"@,
        "https://github.com/RussianPanda95/Yara-Rules.git"@,
        "https://github.com/sbousseaden/YaraHunts.git"@,
        "https://github.com/SIFalcon/Detection.git"@,
        "https://github.com/stairwell-inc/threat-research.git"@,
        "https://github.com/StrangerealIntel/DailyIOC.git"@,
        "https://github.com/telekom-security/malware_analysis.git"@,
        "https://github.com/volexity/threat-intel.git"@,
        "https://github.com/Yara-Rules/rules.git"@,
        "https://github.com/roadwy/DefenderYara.git"@,
        "https://github.com/SupportIntelligence/Icewater.git"@,
        "https://github.com/InQuest/yara-rules.git"@,
        "https://github.com/Neo23x0/signature-base.git"@,
    ]
}

/// The repositories that hold YARA rules.
pub fn yara_github_repos() -> (v: Vec<&'static str>)
    ensures
        strs(v@) == yara_github_repos_catalog(),
        v@.len() == 34,
{
    let v = vec![
        "https://github.com/advanced-threat-research/Yara-Rules.git",
        "https://github.com/airbnb/binaryalert/tree/master/rules/public",
        "https://github.com/avast/ioc.git",
        "https://github.com/chronicle/GCTI.git",
        "https://github.com/deadbits/yara-rules.git",
        "https://github.com/delivr-to/detections.git",
        "https://github.com/dr4k0nia/yara-rules.git",
        "https://github.com/elastic/protections-artifacts.git",
        "https://github.com/elceef/yara-rulz.git",
        "https://github.com/embee-research/Yara-detection-rules.git",
        "https://github.com/eset/malware-ioc.git",
        "https://github.com/fboldewin/YARA-rules.git",
        "https://github.com/JPCERTCC/MalConfScan.git",
        "https://github.com/kevoreilly/CAPEv2.git",
        "https://github.com/malpedia/signator-rules.git",
        "https://github.com/mandiant/red_team_tool_countermeasures.git",
        "https://github.com/mikesxrs/Open-Source-YARA-rules.git",
        "https://github.com/mthcht/ThreatHunting-Keywords-yara-rules.git",
        "https://github.com/Neo23x0/god-mode-rules.git",
        "https://github.com/Neo23x0/signature-base.git",
        "https://github.com/pmelson/yara_rules.git",
        "https://github.com/reversinglabs/reversinglabs-yara-rules.git",
        "https://github.com/RussianPanda95/Yara-Rules.git",
        "https://github.com/sbousseaden/YaraHunts.git",
        "https://github.com/SIFalcon/Detection.git",
        "https://github.com/stairwell-inc/threat-research.git",
        "https://github.com/StrangerealIntel/DailyIOC.git",
        "https://github.com/telekom-security/malware_analysis.git",
        "https://github.com/volexity/threat-intel.git",
        "https://github.com/Yara-Rules/rules.git",
        "https://github.com/roadwy/DefenderYara.git",
        "https://github.com/SupportIntelligence/Icewater.git",
        "https://github.com/InQuest/yara-rules.git",
        "https://github.com/Neo23x0/signature-base.git",
    ];
    assert(strs(v@) =~= yara_github_repos_catalog());
    v
}

/// The web sources of YARA rules; an empty entry is a place kept free.
pub open spec fn yara_webpage_sources_catalog() -> Seq<Seq<char>> {
    seq![
        ""@,
    ]
}

/// The web sources of YARA rules; an empty entry is a place kept free.
pub fn yara_webpage_sources() -> (v: Vec<&'static str>)
    ensures
        strs(v@) == yara_webpage_sources_catalog(),
        v@.len() == 1,
{
    let v = vec![
        "",
    ];
    assert(strs(v@) =~= yara_webpage_sources_catalog());
    v
}

/// The endings by which a URL is taken for a YARA rule file.
pub open spec fn rule_url_suffixes_catalog() -> Seq<Seq<char>> {
    seq![
        ".yar"@,
        ".yara"@,
    ]
}

/// The endings by which a URL is taken for a YARA rule file.
pub fn rule_url_suffixes() -> (v: Vec<&'static str>)
    ensures
        strs(v@) == rule_url_suffixes_catalog(),
        v@.len() == 2,
{
    let v = vec![
        ".yar",
        ".yara",
    ];
    assert(strs(v@) =~= rule_url_suffixes_catalog());
    v
}

/// The extensions by which a file of a clone is taken for a YARA rule file.
pub open spec fn rule_extensions_catalog() -> Seq<Seq<char>> {
    seq![
        "yar"@,
        "yara"@,
    ]
}

/// The extensions by which a file of a clone is taken for a YARA rule file.
pub fn rule_extensions() -> (v: Vec<&'static str>)
    ensures
        strs(v@) == rule_extensions_catalog(),
        v@.len() == 2,
{
    let v = vec![
        "yar",
        "yara",
    ];
    assert(strs(v@) =~= rule_extensions_catalog());
    v
}

/// Says whether a web source is a YARA rule file to fetch as it is. Any other is a
/// page, which is searched for links to follow.
pub fn names_rule_file(url: &str) -> (r: bool)
    ensures
        r == ends_in_any(url@, rule_url_suffixes_catalog()),
{
    let suffixes = rule_url_suffixes();
    is_rule_url(url, suffixes.as_slice())
}

/// Says whether a file found in a clone is a YARA rule file, going by its extension.
pub fn is_rule_file(file_name: &str) -> (r: bool)
    ensures
        r == has_listed_extension(file_name@, rule_extensions_catalog()),
{
    let extensions = rule_extensions();
    has_extension(file_name, extensions.as_slice())
}

} // verus!
