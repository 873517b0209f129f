use detection_wizard::jobs::Job;
use detection_wizard::rules::{qradar, sigma, splunk, suricata, sysmon, velociraptor, yara, zeek};

#[test]
fn sysmon_catalog() {
    let spec = sysmon::sysmon_spec();
    assert_eq!(spec.name, "Sysmon");
    assert_eq!(spec.dest_subfolder, "sysmon");
    assert!(spec.repo_urls.is_empty());
    assert_eq!(spec.page_urls.len(), 5);
    assert_eq!(
        spec.page_urls[2],
        "https://raw.githubusercontent.com/MotiBa/Sysmon/refs/heads/master/config_v17.xml"
    );
    assert_eq!(spec.allowed_exts, vec!["xml"]);
    assert_eq!(sysmon::sysmon_total_sources(), 5);
    assert_eq!(spec.total_sources(), sysmon::sysmon_total_sources());
}

#[test]
fn qradar_catalog() {
    let spec = qradar::qradar_spec();
    assert_eq!(spec.name, "QRadar");
    assert_eq!(spec.dest_subfolder, "qradar");
    assert_eq!(spec.repo_urls, vec!["https://github.com/Xboarder56/QRCE-Rules.git"]);
    assert!(spec.page_urls.is_empty());
    assert_eq!(spec.allowed_exts, vec!["xml", "json", "aql", "txt"]);
    assert_eq!(qradar::qradar_total_sources(), 1);
}

#[test]
fn splunk_catalog() {
    let spec = splunk::splunk_spec();
    assert_eq!(spec.name, "Splunk");
    assert_eq!(spec.dest_subfolder, "splunk");
    assert_eq!(
        spec.repo_urls,
        vec![
            "https://github.com/Infinit3i/Defensive-Rules.git",
            "https://github.com/mthcht/ThreatHunting-Keywords.git",
            "https://github.com/splunk/security_content.git",
            "https://github.com/anvilogic-forge/armory.git",
        ]
    );
    assert!(spec.page_urls.is_empty());
    assert_eq!(spec.allowed_exts, vec!["conf", "xml", "txt", "md"]);
    assert_eq!(splunk::splunk_total_sources(), 4);
}

#[test]
fn velociraptor_catalog_counts_its_free_places() {
    let spec = velociraptor::suricata_spec();
    assert_eq!(spec.name, "Suricata");
    assert_eq!(spec.dest_subfolder, "suricata");
    assert_eq!(spec.repo_urls, vec!["https://github.com/mgreen27/DetectRaptor.git", ""]);
    assert_eq!(spec.page_urls, vec![""]);
    assert_eq!(spec.allowed_exts, vec!["rules", "rule"]);
    assert_eq!(velociraptor::suricata_total_sources(), 3);
}

#[test]
fn zeek_catalog() {
    let spec = zeek::sigma_spec();
    assert_eq!(spec.name, "Sigma");
    assert_eq!(spec.dest_subfolder, "sigma");
    assert_eq!(spec.repo_urls, vec!["https://github.com/zeek/zeek.git"]);
    assert_eq!(spec.page_urls, vec![""]);
    assert_eq!(spec.allowed_exts, vec!["yml", "yaml"]);
    assert_eq!(zeek::sigma_total_sources(), 2);
}

#[test]
fn sigma_run() {
    assert_eq!(sigma::sigma_total_sources(), 10);
    let plan = sigma::process_sigma("out/sigma");
    assert_eq!(plan.len(), 30);
    assert_eq!(
        plan[0],
        Job::Clone {
            url: "https://github.com/SigmaHQ/sigma.git".to_string(),
            dest_dir: "out/sigma".to_string(),
            allowed: vec!["yml".to_string()],
            timeout_secs: None,
        }
    );
    assert_eq!(
        plan[1],
        Job::Clone {
            url: "https://github.com/SigmaHQ/sigma.git".to_string(),
            dest_dir: "out/sigma".to_string(),
            allowed: vec!["yaml".to_string()],
            timeout_secs: None,
        }
    );
    assert_eq!(plan[2], Job::Report { current: 1, total: 10, label: None });
    assert_eq!(
        plan[27],
        Job::Download {
            url: "https://raw.githubusercontent.com/delivr-to/detections/refs/heads/main/sigma-rules/file_event_win_pdf_html_smuggle.yml".to_string(),
            dest_dir: "out/sigma".to_string(),
            allowed: vec!["yml".to_string()],
        }
    );
    assert_eq!(plan[29], Job::Report { current: 10, total: 10, label: None });
}

#[test]
fn yara_run() {
    assert_eq!(yara::yara_total_sources(), 69);
    let plan = yara::process_yara("out/yara");
    assert_eq!(plan.len(), 69 * 3);
    assert_eq!(
        plan[0],
        Job::Report {
            current: 1,
            total: 69,
            label: Some("https://github.com/advanced-threat-research/Yara-Rules.git".to_string()),
        }
    );
    assert_eq!(
        plan[2],
        Job::Clone {
            url: "https://github.com/advanced-threat-research/Yara-Rules.git".to_string(),
            dest_dir: "out/yara".to_string(),
            allowed: vec!["yara".to_string()],
            timeout_secs: None,
        }
    );
    assert_eq!(
        plan[204],
        Job::Report {
            current: 69,
            total: 69,
            label: Some("https://github.com/chronicle/detection-rules.git".to_string()),
        }
    );
}

#[test]
fn suricata_run() {
    assert_eq!(suricata::suricata_total_sources(), 38);
    let plan = suricata::process_suricata("out");
    assert_eq!(plan.len(), 2 * 38);
    assert_eq!(
        plan[0],
        Job::Report {
            current: 1,
            total: 38,
            label: Some("https://github.com/ptresearch/AttackDetection.git".to_string()),
        }
    );
    assert_eq!(
        plan[1],
        Job::Clone {
            url: "https://github.com/ptresearch/AttackDetection.git".to_string(),
            dest_dir: "out".to_string(),
            allowed: vec!["rules".to_string()],
            timeout_secs: None,
        }
    );
    assert_eq!(
        plan[19],
        Job::Download {
            url: "https://ti.stamus-networks.io/open/stamus-lateral-rules.tar.gz".to_string(),
            dest_dir: "out".to_string(),
            allowed: vec!["rules".to_string()],
        }
    );
    assert_eq!(
        plan[74],
        Job::Report {
            current: 38,
            total: 38,
            label: Some("https://networkforensic.dk/SNORT/NF-Scanners.zip".to_string()),
        }
    );
}

#[test]
fn crawl_catalogs_count_only_the_places_that_are_filled() {
    assert_eq!(detection_wizard::qradar::qradar_github_sources().len(), 5);
    assert_eq!(
        detection_wizard::qradar::qradar_web_sources(),
        vec!["https://raw.githubusercontent.com/IBM/qradar-sample-apps/main/sample_rules.xml", ""]
    );
    assert_eq!(detection_wizard::qradar::qradar_total_sources(), 6);
    assert_eq!(
        detection_wizard::splunk::splunk_github_sources(),
        vec!["https://github.com/Infinit3i/Defensive-Rules.git"]
    );
    assert_eq!(detection_wizard::splunk::splunk_web_sources(), vec![""]);
    assert_eq!(detection_wizard::splunk::splunk_total_sources(), 2);
    assert_eq!(detection_wizard::suricata::suricata_github_repos().len(), 9);
    assert_eq!(detection_wizard::suricata::suricata_web_sources().len(), 29);
    assert_eq!(
        detection_wizard::suricata::suricata_web_sources()[12],
        "https://urlhaus.abuse.ch/downloads/ids"
    );
    assert_eq!(detection_wizard::suricata::suricata_total_sources(), 38);
}
