//! Suricata rules.

use vstd::prelude::*;
use crate::jobs::{job_views, one_by_one, plan_by_extension, plan_of, without_dots, Job, JobView, ReportStyle};
use crate::text::{count_nonempty, nonempty_count, strs};

verus! {

/// The repositories of the catalog.
pub open spec fn repo_catalog() -> Seq<Seq<char>> {
    seq![
        "https://github.com/ptresearch/AttackDetection.git"@,
        "https://github.com/beave/sagan-rules.git"@,
        "https://github.com/klingerko/nids-rule-library.git"@,
        "https://github.com/quadrantsec/suricata-rules.git"@,
        "https://github.com/Cluster25/detection.git"@,
        "https://github.com/fox-it/quantuminsert.git"@,
        "https://github.com/travisbgreen/hunting-rules.git"@,
        "https://github.com/aleksibovellan/opnsense-suricata-nmaps.git"@,
        "https://github.com/julioliraup/Antiphishing.git"@,
    ]
}

/// The rule files and archives fetched by URL.
pub open spec fn page_catalog() -> Seq<Seq<char>> {
    seq![
        "https://ti.stamus-networks.io/open/stamus-lateral-rules.tar.gz"@,
        "https://rules.pawpatrules.fr/suricata/paw-patrules.tar.gz"@,
        "https://raw.githubusercontent.com/quadrantsec/suricata-rules/refs/heads/main/quadrant-suricata.rules"@,
        "https://raw.githubusercontent.com/Cluster25/detection/refs/heads/main/suricata/jester_stealer.rules"@,
        "https://raw.githubusercontent.com/travisbgreen/hunting-rules/refs/heads/master/hunting.rules"@,
        "https://raw.githubusercontent.com/travisbgreen/hunting-rules/refs/heads/master/most_abused_tld.rules"@,
        "https://raw.githubusercontent.com/travisbgreen/hunting-rules/refs/heads/master/pii.rules"@,
        "https://raw.githubusercontent.com/aleksibovellan/opnsense-suricata-nmaps/refs/heads/main/local.rules"@,
        "https://raw.githubusercontent.com/julioliraup/Antiphishing/refs/heads/main/antiphishing.rules"@,
        "https://sslbl.abuse.ch/blacklist/sslblacklist_tls_cert.rules"@,
        "https://sslbl.abuse.ch/blacklist/ja3_fingerprints.rules"@,
        "https://sslbl.abuse.ch/blacklist/sslipblacklist.rules"@,
        "https://urlhaus.abuse.ch/downloads/ids"@,
        "https://security.etnetera.cz/feeds/etn_aggressive.rules"@,
        "https://raw.githubusercontent.com/travisbgreen/hunting-rules/master/hunting.rules"@,
        "https://rules.emergingthreats.net/open/suricata/rules/"@,
        "https://openinfosecfoundation.org/rules/trafficid/trafficid.rules"@,
        "https://rules.emergingthreats.net/blockrules/emerging-compromised.rules"@,
        "https://rules.emergingthreats.net/blockrules/emerging-dshield.suricata.rules"@,
        "https://rules.emergingthreats.net/blockrules/emerging-ciarmy.suricata.rules"@,
        "https://rules.emergingthreats.net/blockrules/emerging-drop.suricata.rules"@,
        "https://feodotracker.abuse.ch/downloads/feodotracker_aggressive.rules"@,
        "https://rules.emergingthreats.net/blockrules/threatview_CS_c2.suricata.rules"@,
        "https://rules.emergingthreats.net/blockrules/emerging-tor.suricata.rules"@,
        "https://sslbl.abuse.ch/blacklist/sslblacklist.rules"@,
        "https://urlhaus.abuse.ch/downloads/ids/"@,
        "https://networkforensic.dk/SNORT/NF-local.zip"@,
        "https://networkforensic.dk/SNORT/NF-SCADA.zip"@,
        "https://networkforensic.dk/SNORT/NF-Scanners.zip"@,
    ]
}

fn repos() -> (v: Vec<&'static str>)
    ensures
        strs(v@) == repo_catalog(),
        v@.len() == repo_catalog().len(),
{
    let v = vec![
        "https://github.com/ptresearch/AttackDetection.git",
        "https://github.com/beave/sagan-rules.git",
        "https://github.com/klingerko/nids-rule-library.git",
        "https://github.com/quadrantsec/suricata-rules.git",
        "https://github.com/Cluster25/detection.git",
        "https://github.com/fox-it/quantuminsert.git",
        "https://github.com/travisbgreen/hunting-rules.git",
        "https://github.com/aleksibovellan/opnsense-suricata-nmaps.git",
        "https://github.com/julioliraup/Antiphishing.git",
    ];
    assert(strs(v@) =~= repo_catalog());
    v
}

fn pages() -> (v: Vec<&'static str>)
    ensures
        strs(v@) == page_catalog(),
        v@.len() == page_catalog().len(),
{
    let v = vec![
        "https://ti.stamus-networks.io/open/stamus-lateral-rules.tar.gz",
        "https://rules.pawpatrules.fr/suricata/paw-patrules.tar.gz",
        "https://raw.githubusercontent.com/quadrantsec/suricata-rules/refs/heads/main/quadrant-suricata.rules",
        "https://raw.githubusercontent.com/Cluster25/detection/refs/heads/main/suricata/jester_stealer.rules",
        "https://raw.githubusercontent.com/travisbgreen/hunting-rules/refs/heads/master/hunting.rules",
        "https://raw.githubusercontent.com/travisbgreen/hunting-rules/refs/heads/master/most_abused_tld.rules",
        "https://raw.githubusercontent.com/travisbgreen/hunting-rules/refs/heads/master/pii.rules",
        "https://raw.githubusercontent.com/aleksibovellan/opnsense-suricata-nmaps/refs/heads/main/local.rules",
        "https://raw.githubusercontent.com/julioliraup/Antiphishing/refs/heads/main/antiphishing.rules",
        "https://sslbl.abuse.ch/blacklist/sslblacklist_tls_cert.rules",
        "https://sslbl.abuse.ch/blacklist/ja3_fingerprints.rules",
        "https://sslbl.abuse.ch/blacklist/sslipblacklist.rules",
        "https://urlhaus.abuse.ch/downloads/ids",
        "https://security.etnetera.cz/feeds/etn_aggressive.rules",
        "https://raw.githubusercontent.com/travisbgreen/hunting-rules/master/hunting.rules",
        "https://rules.emergingthreats.net/open/suricata/rules/",
        "https://openinfosecfoundation.org/rules/trafficid/trafficid.rules",
        "https://rules.emergingthreats.net/blockrules/emerging-compromised.rules",
        "https://rules.emergingthreats.net/blockrules/emerging-dshield.suricata.rules",
        "https://rules.emergingthreats.net/blockrules/emerging-ciarmy.suricata.rules",
        "https://rules.emergingthreats.net/blockrules/emerging-drop.suricata.rules",
        "https://feodotracker.abuse.ch/downloads/feodotracker_aggressive.rules",
        "https://rules.emergingthreats.net/blockrules/threatview_CS_c2.suricata.rules",
        "https://rules.emergingthreats.net/blockrules/emerging-tor.suricata.rules",
        "https://sslbl.abuse.ch/blacklist/sslblacklist.rules",
        "https://urlhaus.abuse.ch/downloads/ids/",
        "https://networkforensic.dk/SNORT/NF-local.zip",
        "https://networkforensic.dk/SNORT/NF-SCADA.zip",
        "https://networkforensic.dk/SNORT/NF-Scanners.zip",
    ];
    assert(strs(v@) =~= page_catalog());
    v
}

/// The number of sources in the catalog: the repositories, and the URLs that
/// are not empty.
pub fn suricata_total_sources() -> (n: usize)
    ensures
        n == repo_catalog().len() + nonempty_count(page_catalog()),
        n <= 38,
{
    let p = pages();
    repos().len() + count_nonempty(p.as_slice())
}

/// Lays out the Suricata run into `output_path`: every source is announced,
/// then tried for `.rules` files. The announcements count every URL of the
/// catalog.
pub open spec fn run_plan(output_path: Seq<char>) -> Seq<JobView> {
    plan_of(
        repo_catalog(),
        page_catalog(),
        output_path,
        one_by_one(without_dots(seq![".rules"@])),
        one_by_one(without_dots(seq![".rules"@])),
        None,
        ReportStyle::Announce,
    )
}

/// Lays out the Suricata run into `output_path`: every source is announced,
/// then tried for `.rules` files. The announcements count every URL of the
/// catalog.
pub fn process_suricata(output_path: &str) -> (plan: Vec<Job>)
    ensures
        job_views(plan@) == run_plan(output_path@),
{
    let r = repos();
    let p = pages();
    let extensions = vec![".rules"];
    assert(strs(extensions@) =~= seq![".rules"@]);
    plan_by_extension(r.as_slice(), p.as_slice(), output_path, extensions.as_slice(), ReportStyle::Announce)
}

} // verus!
