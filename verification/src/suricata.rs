//! Suricata rules gathered from repositories and from web sources.

use vstd::prelude::*;
use crate::filter::{has_extension, has_listed_extension};
use crate::links::{ends_in_any, is_rule_url};
use crate::text::{count_nonempty, nonempty_count, strs};

verus! {

/// The rule files and archives fetched by URL.
pub open spec fn suricata_web_sources_catalog() -> Seq<Seq<char>> {
    seq![
        "https://ti.stamus-networks.io/open/stamus-lateral-rules.tar.gz"@,
        "https://rules.pawpatrules.fr/suricata/paw-patrules.tar.gz"@,
        "https://raw.githubusercontent.com/quadrantsec/suricata-rules/refs/heads/main/quadrant-suricata.rules"@,
        "https://raw.githubusercontent.com/Cluster25/detection/refs/heads/main/suricata/jester_stealer.rules"@,
        "https://raw.githubusercontent.com/travisbgreen/hunting-rules/refs/heads/master/hunting.rules"@,
        "https://raw.githubusercontent.com/travisbgreen/hunting-rules/refs/heads/master/most_abused_tld.rules"@,
        "https://raw.githubusercontent.com/travisbgreen/hunting-rules/refs/heads/master/pii.rules"@,
        "https://raw.githubusercontent.com/aleksibovellan/opnsense-suricata-nmaps/refs/heads/main/local.rules"@,
        "https://raw.githubusercontent.com/julioliraup/Antiphishing/refs/heads/main/antiphishing.rules"@,
        "https://sslbl.abuse.ch/blacklist/sslblacklist_tls_cert.rules"@,
        "https://sslbl.abuse.ch/blacklist/ja3_fingerprints.rules"@,
        "https://sslbl.abuse.ch/blacklist/sslipblacklist.rules"@,
        "https://urlhaus.abuse.ch/downloads/ids"@,
        "https://security.etnetera.cz/feeds/etn_aggressive.rules"@,
        "https://raw.githubusercontent.com/travisbgreen/hunting-rules/master/hunting.rules"@,
        "https://rules.emergingthreats.net/open/suricata/rules/"@,
        "https://openinfosecfoundation.org/rules/trafficid/trafficid.rules"@,
        "https://rules.emergingthreats.net/blockrules/emerging-compromised.rules"@,
        "https://rules.emergingthreats.net/blockrules/emerging-dshield.suricata.rules"@,
        "https://rules.emergingthreats.net/blockrules/emerging-ciarmy.suricata.rules"@,
        "https://rules.emergingthreats.net/blockrules/emerging-drop.suricata.rules"@,
        "https://feodotracker.abuse.ch/downloads/feodotracker_aggressive.rules"@,
        "https://rules.emergingthreats.net/blockrules/threatview_CS_c2.suricata.rules"@,
        "https://rules.emergingthreats.net/blockrules/emerging-tor.suricata.rules"@,
        "https://sslbl.abuse.ch/blacklist/sslblacklist.rules"@,
        "https://urlhaus.abuse.ch/downloads/ids/"@,
        "https://networkforensic.dk/SNORT/NF-local.zip"@,
        "https://networkforensic.dk/SNORT/NF-SCADA.zip"@,
        "https://networkforensic.dk/SNORT/NF-Scanners.zip"@,
    ]
}

/// The rule files and archives fetched by URL.
pub fn suricata_web_sources() -> (v: Vec<&'static str>)
    ensures
        strs(v@) == suricata_web_sources_catalog(),
        v@.len() == 29,
{
    let v = vec![
        "https://ti.stamus-networks.io/open/stamus-lateral-rules.tar.gz",
        "https://rules.pawpatrules.fr/suricata/paw-patrules.tar.gz",
        "https://raw.githubusercontent.com/quadrantsec/suricata-rules/refs/heads/main/quadrant-suricata.rules",
        "https://raw.githubusercontent.com/Cluster25/detection/refs/heads/main/suricata/jester_stealer.rules",
        "https://raw.githubusercontent.com/travisbgreen/hunting-rules/refs/heads/master/hunting.rules",
        "https://raw.githubusercontent.com/travisbgreen/hunting-rules/refs/heads/master/most_abused_tld.rules",
        "https://raw.githubusercontent.com/travisbgreen/hunting-rules/refs/heads/master/pii.rules",
        "https://raw.githubusercontent.com/aleksibovellan/opnsense-suricata-nmaps/refs/heads/main/local.rules",
        "https://raw.githubusercontent.com/julioliraup/Antiphishing/refs/heads/main/antiphishing.rules",
        "https://sslbl.abuse.ch/blacklist/sslblacklist_tls_cert.rules",
        "https://sslbl.abuse.ch/blacklist/ja3_fingerprints.rules",
        "https://sslbl.abuse.ch/blacklist/sslipblacklist.rules",
        "https://urlhaus.abuse.ch/downloads/ids",
        "https://security.etnetera.cz/feeds/etn_aggressive.rules",
        "https://raw.githubusercontent.com/travisbgreen/hunting-rules/master/hunting.rules",
        "https://rules.emergingthreats.net/open/suricata/rules/",
        "https://openinfosecfoundation.org/rules/trafficid/trafficid.rules",
        "https://rules.emergingthreats.net/blockrules/emerging-compromised.rules",
        "https://rules.emergingthreats.net/blockrules/emerging-dshield.suricata.rules",
        "https://rules.emergingthreats.net/blockrules/emerging-ciarmy.suricata.rules",
        "https://rules.emergingthreats.net/blockrules/emerging-drop.suricata.rules",
        "https://feodotracker.abuse.ch/downloads/feodotracker_aggressive.rules",
        "https://rules.emergingthreats.net/blockrules/threatview_CS_c2.suricata.rules",
        "https://rules.emergingthreats.net/blockrules/emerging-tor.suricata.rules",
        "https://sslbl.abuse.ch/blacklist/sslblacklist.rules",
        "https://urlhaus.abuse.ch/downloads/ids/",
        "https://networkforensic.dk/SNORT/NF-local.zip",
        "https://networkforensic.dk/SNORT/NF-SCADA.zip",
        "https://networkforensic.dk/SNORT/NF-Scanners.zip",
    ];
    assert(strs(v@) =~= suricata_web_sources_catalog());
    v
}

/// The repositories that hold Suricata rules.
pub open spec fn suricata_github_repos_catalog() -> Seq<Seq<char>> {
    seq![
        "https://github.com/ptresearch/AttackDetection.git"@,
        "https://github.com/beave/sagan-rules.git"@,
        "https://github.com/klingerko/nids-rule-library.git"@,
        "https://github.com/quadrantsec/suricata-rules.git"@,
        "https://github.com/Cluster25/detection.git"@,
        "https://github.com/fox-it/quantuminsert.git"@,
        "https://github.com/travisbgreen/hunting-rules.git"@,
        "https://github.com/aleksibovellan/opnsense-suricata-nmaps.git"@,
        "https://github.com/julioliraup/Antiphishing.git"@,
    ]
}

/// The repositories that hold Suricata rules.
pub fn suricata_github_repos() -> (v: Vec<&'static str>)
    ensures
        strs(v@) == suricata_github_repos_catalog(),
        v@.len() == 9,
{
    let v = vec![
        "https://github.com/ptresearch/AttackDetection.git",
        "https://github.com/beave/sagan-rules.git",
        "https://github.com/klingerko/nids-rule-library.git",
        "https://github.com/quadrantsec/suricata-rules.git",
        "https://github.com/Cluster25/detection.git",
        "https://github.com/fox-it/quantuminsert.git",
        "https://github.com/travisbgreen/hunting-rules.git",
        "https://github.com/aleksibovellan/opnsense-suricata-nmaps.git",
        "https://github.com/julioliraup/Antiphishing.git",
    ];
    assert(strs(v@) =~= suricata_github_repos_catalog());
    v
}

/// The endings by which a URL is taken for a Suricata rule file.
pub open spec fn rule_url_suffixes_catalog() -> Seq<Seq<char>> {
    seq![
        ".rules"@,
    ]
}

/// The endings by which a URL is taken for a Suricata rule file.
pub fn rule_url_suffixes() -> (v: Vec<&'static str>)
    ensures
        strs(v@) == rule_url_suffixes_catalog(),
        v@.len() == 1,
{
    let v = vec![
        ".rules",
    ];
    assert(strs(v@) =~= rule_url_suffixes_catalog());
    v
}

/// The extensions by which a file of a clone is taken for a Suricata rule file.
pub open spec fn rule_extensions_catalog() -> Seq<Seq<char>> {
    seq![
        "rules"@,
    ]
}

/// The extensions by which a file of a clone is taken for a Suricata rule file.
pub fn rule_extensions() -> (v: Vec<&'static str>)
    ensures
        strs(v@) == rule_extensions_catalog(),
        v@.len() == 1,
{
    let v = vec![
        "rules",
    ];
    assert(strs(v@) =~= rule_extensions_catalog());
    v
}

/// The number of sources: the repositories, and the web sources that are not
/// empty.
pub fn suricata_total_sources() -> (n: usize)
    ensures
        n == suricata_github_repos_catalog().len() + nonempty_count(suricata_web_sources_catalog()),
{
    let web = suricata_web_sources();
    suricata_github_repos().len() + count_nonempty(web.as_slice())
}

/// Says whether a web source is a Suricata rule file to fetch as it is. Any other is a
/// page, which is searched for links to follow.
pub fn names_rule_file(url: &str) -> (r: bool)
    ensures
        r == ends_in_any(url@, rule_url_suffixes_catalog()),
{
    let suffixes = rule_url_suffixes();
    is_rule_url(url, suffixes.as_slice())
}

/// Says whether a file found in a clone is a Suricata rule file, going by its extension.
pub fn is_rule_file(file_name: &str) -> (r: bool)
    ensures
        r == has_listed_extension(file_name@, rule_extensions_catalog()),
{
    let extensions = rule_extensions();
    has_extension(file_name, extensions.as_slice())
}

} // verus!
