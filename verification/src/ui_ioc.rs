//! The sources of indicators: the lists fetched by URL for each kind, and
//! the repositories that are searched.

use vstd::prelude::*;
use vstd::string::StringExecFns;
use crate::ioc::pair_views;
use crate::text::{str_eq, strs};

verus! {

/// The repositories that are searched for indicators.
pub open spec fn ioc_repo_catalog() -> Seq<Seq<char>> {
    seq![
        "https://github.com/avast/ioc.git"@,
        "https://github.com/DoctorWebLtd/malware-iocs.git"@,
        "https://github.com/eset/malware-ioc.git"@,
        "https://github.com/mandiant/iocs.git"@,
        "https://github.com/GoSecure/malware-ioc.git"@,
        "https://github.com/Neo23x0/signature-base.git"@,
        "https://github.com/advanced-threat-research/IOCs.git"@,
        "https://github.com/pan-unit42/iocs.git"@,
        "https://github.com/prodaft/malware-ioc.git"@,
        "https://github.com/RedDrip7/APT_Digital_Weapon.git"@,
        "https://github.com/sophoslabs/IoCs.git"@,
        "https://github.com/StrangerealIntel/DailyIOC.git"@,
        "https://github.com/Infinit3i/IOC-Detections.git"@,
    ]
}

/// The kinds of indicators that are read out of repositories.
pub open spec fn repo_kinds() -> Seq<Seq<char>> {
    seq!["MD5"@, "SHA1"@, "SHA256"@, "Domain"@, "IP"@]
}

/// The lists fetched by URL for the kind `ioc_type`; none for a name that is
/// no kind.
pub open spec fn ioc_urls(ioc_type: Seq<char>) -> Seq<Seq<char>> {
    if ioc_type == "Filename"@ {
        seq![
            "https://www.botvrij.eu/data/ioclist.filename"@,
        ]
    } else if ioc_type == "SHA256"@ {
        seq![
            "https://www.botvrij.eu/data/ioclist.sha256"@,
        ]
    } else if ioc_type == "SHA1"@ {
        seq![
            "https://www.botvrij.eu/data/ioclist.sha1"@,
            "https://raw.githubusercontent.com/bitdefender/malware-ioc/refs/heads/master/dark_nexus/all_bots.txt"@,
        ]
    } else if ioc_type == "MD5"@ {
        seq![
            "https://www.botvrij.eu/data/ioclist.md5"@,
        ]
    } else if ioc_type == "IP"@ {
        seq![
            "https://www.binarydefense.com/banlist.txt"@,
            "https://www.botvrij.eu/data/ioclist.ip-dst"@,
            "https://cinsscore.com/list/ci-badguys.txt"@,
            "https://osint.bambenekconsulting.com/feeds/c2-ipmasterlist.txt"@,
            "https://rules.emergingthreats.net/fwrules/emerging-Block-IPs.txt"@,
            "https://feodotracker.abuse.ch/downloads/ipblocklist.txt"@,
            "https://feodotracker.abuse.ch/downloads/ipblocklist_aggressive.txt"@,
            "https://iplists.firehol.org/files/firehol_level1.netset"@,
            "https://iplists.firehol.org/files/firehol_level2.netset"@,
            "https://iplists.firehol.org/files/firehol_level3.netset"@,
            "https://lists.blocklist.de/lists/all.txt"@,
            "https://rules.emergingthreats.net/blockrules/compromised-ips.txt"@,
            "https://gist.githubusercontent.com/BBcan177/bf29d47ea04391cb3eb0/raw/"@,
            "https://danger.rulez.sk/projects/bruteforceblocker/blist.php"@,
            "https://blocklist.greensnow.co/greensnow.txt"@,
            "https://raw.githubusercontent.com/LinuxTracker/Blocklists/master/HancitorIPs.txt"@,
            "https://www.dan.me.uk/torlist/"@,
            "https://zerodot1.deteque.com/main/ipfeeds/bad/ZeroDot1sBadIPs.txt"@,
            "https://zerodot1.deteque.com/main/ipfeeds/mining/ZeroDot1sMinerIPsLATEST.txt"@,
            "https://raw.githubusercontent.com/tesla-consulting/ioc-list/refs/heads/main/iplist.csv"@,
            "https://raw.githubusercontent.com/securityscorecard/SSC-Threat-Intel-IoCs/refs/heads/master/KillNet-DDoS-Blocklist/ipblocklist.txt"@,
        ]
    } else if ioc_type == "Domain"@ {
        seq![
            "https://www.botvrij.eu/data/ioclist.domain"@,
            "https://gist.githubusercontent.com/BBcan177/4a8bf37c131be4803cb2/raw"@,
            "https://www.joewein.net/dl/bl/dom-bl.txt"@,
            "https://gist.githubusercontent.com/BBcan177/bf29d47ea04391cb3eb0/raw/"@,
            "https://raw.githubusercontent.com/Hestat/minerchk/master/hostslist.txt"@,
            "https://isc.sans.edu/feeds/suspiciousdomains_High.txt"@,
            "https://isc.sans.edu/feeds/suspiciousdomains_Medium.txt"@,
            "https://raw.githubusercontent.com/bitdefender/malware-ioc/refs/heads/master/metamorfo_malware/domains.txt"@,
        ]
    } else if ioc_type == "URL"@ {
        seq![
            "https://www.botvrij.eu/data/ioclist.url"@,
            "https://raw.githubusercontent.com/openphish/public_feed/refs/heads/main/feed.txt"@,
            "https://urlhaus.abuse.ch/downloads/text/"@,
            "https://urlhaus.abuse.ch/downloads/text_recent/"@,
        ]
    } else if ioc_type == "Email"@ {
        seq![
            "https://www.botvrij.eu/data/ioclist.email-src"@,
            "https://raw.githubusercontent.com/WSTNPHX/scripts-n-tools/master/malware-email-addresses.txt"@,
        ]
    } else if ioc_type == "Registry"@ {
        seq![
            "https://www.botvrij.eu/data/ioclist.regkey"@,
        ]
    } else {
        seq![]
    }
}

/// The repositories that are searched for indicators.
pub fn ioc_repos() -> (v: Vec<&'static str>)
    ensures
        strs(v@) == ioc_repo_catalog(),
{
    let v = vec![
        "https://github.com/avast/ioc.git",
        "https://github.com/DoctorWebLtd/malware-iocs.git",
        "https://github.com/eset/malware-ioc.git",
        "https://github.com/mandiant/iocs.git",
        "https://github.com/GoSecure/malware-ioc.git",
        "https://github.com/Neo23x0/signature-base.git",
        "https://github.com/advanced-threat-research/IOCs.git",
        "https://github.com/pan-unit42/iocs.git",
        "https://github.com/prodaft/malware-ioc.git",
        "https://github.com/RedDrip7/APT_Digital_Weapon.git",
        "https://github.com/sophoslabs/IoCs.git",
        "https://github.com/StrangerealIntel/DailyIOC.git",
        "https://github.com/Infinit3i/IOC-Detections.git",
    ];
    assert(strs(v@) =~= ioc_repo_catalog());
    v
}

/// The kinds of indicators that are read out of repositories.
pub fn ioc_repo_kinds() -> (v: Vec<&'static str>)
    ensures
        strs(v@) == repo_kinds(),
{
    let v = vec!["MD5", "SHA1", "SHA256", "Domain", "IP"];
    assert(strs(v@) =~= repo_kinds());
    v
}

/// Looks up the lists fetched by URL for the kind `ioc_type`.
pub fn get_urls_for_ioc_type(ioc_type: &str) -> (urls: Vec<&'static str>)
    ensures
        strs(urls@) == ioc_urls(ioc_type@),
{
    let urls: Vec<&'static str> = if str_eq(ioc_type, "Filename") {
        vec![
            "https://www.botvrij.eu/data/ioclist.filename",
        ]
    } else if str_eq(ioc_type, "SHA256") {
        vec![
            "https://www.botvrij.eu/data/ioclist.sha256",
        ]
    } else if str_eq(ioc_type, "SHA1") {
        vec![
            "https://www.botvrij.eu/data/ioclist.sha1",
            "https://raw.githubusercontent.com/bitdefender/malware-ioc/refs/heads/master/dark_nexus/all_bots.txt",
        ]
    } else if str_eq(ioc_type, "MD5") {
        vec![
            "https://www.botvrij.eu/data/ioclist.md5",
        ]
    } else if str_eq(ioc_type, "IP") {
        vec![
            "https://www.binarydefense.com/banlist.txt",
            "https://www.botvrij.eu/data/ioclist.ip-dst",
            "https://cinsscore.com/list/ci-badguys.txt",
            "https://osint.bambenekconsulting.com/feeds/c2-ipmasterlist.txt",
            "https://rules.emergingthreats.net/fwrules/emerging-Block-IPs.txt",
            "https://feodotracker.abuse.ch/downloads/ipblocklist.txt",
            "https://feodotracker.abuse.ch/downloads/ipblocklist_aggressive.txt",
            "https://iplists.firehol.org/files/firehol_level1.netset",
            "https://iplists.firehol.org/files/firehol_level2.netset",
            "https://iplists.firehol.org/files/firehol_level3.netset",
            "https://lists.blocklist.de/lists/all.txt",
            "https://rules.emergingthreats.net/blockrules/compromised-ips.txt",
            "https://gist.githubusercontent.com/BBcan177/bf29d47ea04391cb3eb0/raw/",
            "https://danger.rulez.sk/projects/bruteforceblocker/blist.php",
            "https://blocklist.greensnow.co/greensnow.txt",
            "https://raw.githubusercontent.com/LinuxTracker/Blocklists/master/HancitorIPs.txt",
            "https://www.dan.me.uk/torlist/",
            "https://zerodot1.deteque.com/main/ipfeeds/bad/ZeroDot1sBadIPs.txt",
            "https://zerodot1.deteque.com/main/ipfeeds/mining/ZeroDot1sMinerIPsLATEST.txt",
            "https://raw.githubusercontent.com/tesla-consulting/ioc-list/refs/heads/main/iplist.csv",
            "https://raw.githubusercontent.com/securityscorecard/SSC-Threat-Intel-IoCs/refs/heads/master/KillNet-DDoS-Blocklist/ipblocklist.txt",
        ]
    } else if str_eq(ioc_type, "Domain") {
        vec![
            "https://www.botvrij.eu/data/ioclist.domain",
            "https://gist.githubusercontent.com/BBcan177/4a8bf37c131be4803cb2/raw",
            "https://www.joewein.net/dl/bl/dom-bl.txt",
            "https://gist.githubusercontent.com/BBcan177/bf29d47ea04391cb3eb0/raw/",
            "https://raw.githubusercontent.com/Hestat/minerchk/master/hostslist.txt",
            "https://isc.sans.edu/feeds/suspiciousdomains_High.txt",
            "https://isc.sans.edu/feeds/suspiciousdomains_Medium.txt",
            "https://raw.githubusercontent.com/bitdefender/malware-ioc/refs/heads/master/metamorfo_malware/domains.txt",
        ]
    } else if str_eq(ioc_type, "URL") {
        vec![
            "https://www.botvrij.eu/data/ioclist.url",
            "https://raw.githubusercontent.com/openphish/public_feed/refs/heads/main/feed.txt",
            "https://urlhaus.abuse.ch/downloads/text/",
            "https://urlhaus.abuse.ch/downloads/text_recent/",
        ]
    } else if str_eq(ioc_type, "Email") {
        vec![
            "https://www.botvrij.eu/data/ioclist.email-src",
            "https://raw.githubusercontent.com/WSTNPHX/scripts-n-tools/master/malware-email-addresses.txt",
        ]
    } else if str_eq(ioc_type, "Registry") {
        vec![
            "https://www.botvrij.eu/data/ioclist.regkey",
        ]
    } else {
        Vec::new()
    };
    assert(strs(urls@) =~= ioc_urls(ioc_type@));
    urls
}

/// The lists of one kind, each with the name of the kind.
pub open spec fn urls_of_kind(ioc_type: Seq<char>) -> Seq<(Seq<char>, Seq<char>)> {
    Seq::new(ioc_urls(ioc_type).len(), |i: int| (ioc_urls(ioc_type)[i], ioc_type))
}

/// The lists of the first `n` of `types`, kind after kind.
pub open spec fn urls_of_kinds(types: Seq<Seq<char>>, n: int) -> Seq<(Seq<char>, Seq<char>)>
    decreases n,
{
    if n <= 0 {
        seq![]
    } else {
        urls_of_kinds(types, n - 1) + urls_of_kind(types[n - 1])
    }
}

/// Gathers the lists to fetch for the kinds `types`, each with its kind.
pub fn collect_urls(types: &[&str]) -> (urls: Vec<(String, String)>)
    ensures
        pair_views(urls@) == urls_of_kinds(strs(types@), types@.len() as int),
{
    let ghost all = strs(types@);
    let mut urls: Vec<(String, String)> = Vec::new();
    let mut i: usize = 0;
    assert(pair_views(urls@) =~= urls_of_kinds(all, 0));
    while i < types.len()
        invariant
            i <= types.len(),
            all == strs(types@),
            pair_views(urls@) == urls_of_kinds(all, i as int),
        decreases types.len() - i,
    {
        let kind = types[i];
        let lists = get_urls_for_ioc_type(kind);
        let ghost before = pair_views(urls@);
        let ghost of_kind = urls_of_kind(kind@);
        assert(strs(lists@).len() == lists@.len());
        let mut j: usize = 0;
        assert(pair_views(urls@) =~= before + of_kind.take(0));
        while j < lists.len()
            invariant
                j <= lists.len(),
                strs(lists@) == ioc_urls(kind@),
                lists@.len() == ioc_urls(kind@).len(),
                of_kind == urls_of_kind(kind@),
                pair_views(urls@) == before + of_kind.take(j as int),
            decreases lists.len() - j,
        {
            assert(strs(lists@)[j as int] == lists@[j as int]@);
            assert(of_kind[j as int] == (lists@[j as int]@, kind@));
            assert(of_kind.take(j + 1) == of_kind.take(j as int).push(of_kind[j as int]));
            let ghost so_far = pair_views(urls@);
            urls.push((String::from_str(lists[j]), String::from_str(kind)));
            assert(pair_views(urls@) =~= so_far.push((lists@[j as int]@, kind@)));
            assert(pair_views(urls@) =~= before + of_kind.take(j + 1));
            j += 1;
        }
        assert(of_kind.take(lists.len() as int) == of_kind);
        i += 1;
    }
    urls
}

/// Those of `types` that are read out of repositories, in order.
pub open spec fn repo_kinds_in(types: Seq<Seq<char>>) -> Seq<Seq<char>> {
    types.filter(|t: Seq<char>| repo_kinds().contains(t))
}

/// Picks out of `types` the kinds that are read out of repositories.
pub fn repo_kinds_among(types: &[&'static str]) -> (out: Vec<&'static str>)
    ensures
        strs(out@) == repo_kinds_in(strs(types@)),
{
    let ghost all = strs(types@);
    let ghost keep = |t: Seq<char>| repo_kinds().contains(t);
    let kinds = ioc_repo_kinds();
    let mut out: Vec<&'static str> = Vec::new();
    let mut i: usize = 0;
    assert(strs(out@) =~= all.take(0).filter(keep));
    while i < types.len()
        invariant
            i <= types.len(),
            all == strs(types@),
            keep == |t: Seq<char>| repo_kinds().contains(t),
            strs(kinds@) == repo_kinds(),
            strs(out@) == all.take(i as int).filter(keep),
        decreases types.len() - i,
    {
        let kind = types[i];
        proof {
            assert(all.take(i + 1) == all.take(i as int).push(kind@));
            all.take(i as int).lemma_filter_push(kind@, keep);
        }
        let mut listed = false;
        let mut j: usize = 0;
        while j < kinds.len()
            invariant
                j <= kinds.len(),
                strs(kinds@) == repo_kinds(),
                listed == exists|k: int| 0 <= k < j && strs(kinds@)[k] == kind@,
            decreases kinds.len() - j,
        {
            if str_eq(kinds[j], kind) {
                assert(strs(kinds@)[j as int] == kind@);
                listed = true;
            }
            j += 1;
        }
        assert(strs(kinds@).len() == kinds@.len());
        assert(listed == repo_kinds().contains(kind@));
        if listed {
            out.push(kind);
            assert(strs(out@) =~= all.take(i as int).filter(keep).push(kind@));
        }
        i += 1;
    }
    assert(all.take(types.len() as int) == all);
    out
}

} // verus!
