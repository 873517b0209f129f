use detection_wizard::rules::grab_mitre::{
    analytic_file_title, assemble_details, build_splunk_query, build_technique_url, category_folder,
    extract_analytic, extract_hunting_trigger, extract_mitre_category,
    extract_name_and_subtechnique, extract_tactics, extract_unique_apts, group_id,
    save_analytics_to_files, technique_ids, AnalyticQuery, MitreTechniqueDetails,
};

fn s(x: &str) -> String {
    x.to_string()
}

#[test]
fn test_url_building() {
    // Test main technique
    let url1 = build_technique_url("1055");
    assert_eq!(url1, "https://attack.mitre.org/techniques/T1055/");

    // Test subtechnique
    let url2 = build_technique_url("1055.001");
    assert_eq!(url2, "https://attack.mitre.org/techniques/T1055/001/");
}

#[test]
fn sub_technique_numbers_are_written_in_three_digits() {
    assert_eq!(build_technique_url("1059.7"), "https://attack.mitre.org/techniques/T1059/007/");
    assert_eq!(build_technique_url("1059.12"), "https://attack.mitre.org/techniques/T1059/012/");
    assert_eq!(build_technique_url("1.1234"), "https://attack.mitre.org/techniques/T1/1234/");
    assert_eq!(build_technique_url("1.+5"), "https://attack.mitre.org/techniques/T1/005/");
    assert_eq!(build_technique_url("1.0"), "https://attack.mitre.org/techniques/T1/000/");
    assert_eq!(
        build_technique_url("1.4294967295"),
        "https://attack.mitre.org/techniques/T1/4294967295/"
    );
}

#[test]
fn what_is_no_number_counts_as_zero() {
    for id in ["1055.", "1055.x", "1055.-1", "1055. 1", "1055.1a", "1055.4294967296", "1055.+", "1055..2"] {
        assert_eq!(build_technique_url(id), "https://attack.mitre.org/techniques/T1055/000/", "{}", id);
    }
    assert_eq!(build_technique_url("1055.002.9"), "https://attack.mitre.org/techniques/T1055/002/");
    assert_eq!(build_technique_url(""), "https://attack.mitre.org/techniques/T/");
    assert_eq!(build_technique_url(".5"), "https://attack.mitre.org/techniques/T/005/");
}

#[test]
fn identifiers_get_their_letter() {
    assert_eq!(technique_ids("1055"), (s("T1055"), s("")));
    assert_eq!(technique_ids("1055.001"), (s("T1055"), s("T1055.001")));
    assert_eq!(technique_ids("1055.001.2"), (s("T1055"), s("T1055.001.2")));
    assert_eq!(technique_ids(""), (s("T"), s("")));
}

#[test]
fn the_heading_is_split_at_its_first_colon() {
    assert_eq!(
        extract_name_and_subtechnique(Some("\n  Process Injection: Dynamic-link Library Injection \n")),
        (s("Process Injection"), s("Dynamic-link Library Injection"))
    );
    assert_eq!(extract_name_and_subtechnique(Some(" Phishing ")), (s("Phishing"), s("")));
    assert_eq!(extract_name_and_subtechnique(Some("a: b: c")), (s("a"), s("b: c")));
    assert_eq!(extract_name_and_subtechnique(Some(":")), (s(""), s("")));
    assert_eq!(extract_name_and_subtechnique(Some("")), (s(""), s("")));
    assert_eq!(extract_name_and_subtechnique(None), (s("Unknown"), s("")));
}

#[test]
fn tactics_lose_their_white_space() {
    assert_eq!(
        extract_tactics(&vec![s(" Defense Evasion\n"), s("Privilege Escalation"), s("  ")]),
        vec!["Defense Evasion", "Privilege Escalation", ""]
    );
    assert_eq!(extract_tactics(&vec![]), Vec::<String>::new());
}

#[test]
fn the_hunting_trigger_is_the_first_sentence() {
    let runs = vec![s("\n Adversaries may inject code"), s("into processes"), s(". They also"), s("do more. ")];
    assert_eq!(
        extract_hunting_trigger(Some(&runs)),
        "Adversaries may inject code into processes ."
    );
    assert_eq!(extract_hunting_trigger(Some(&vec![s(" no full stop ")])), "no full stop");
    assert_eq!(extract_hunting_trigger(Some(&vec![s(".x")])), ".");
    assert_eq!(extract_hunting_trigger(Some(&vec![])), "");
    assert_eq!(extract_hunting_trigger(None), "Description not found.");
}

#[test]
fn the_category_is_the_first_tactic() {
    assert_eq!(extract_mitre_category(Some(" Execution ")), "Execution");
    assert_eq!(extract_mitre_category(None), "Unknown");
}

#[test]
fn an_analytic_needs_the_word_and_a_piece_of_code() {
    assert_eq!(extract_analytic("Analytic 1 - x", None), None);
    assert_eq!(extract_analytic("Detection 1 - x", Some("index=a")), None);
    assert_eq!(
        extract_analytic("An Analytic - x", Some("index=a")),
        Some(AnalyticQuery { description: s("An Analytic - x"), query: s("index=a") })
    );
}

#[test]
fn an_analytic_is_read_off_its_paragraph() {
    let found = extract_analytic(
        "  Analytic 1 - Suspicious DLL loads - rare\n index=x ",
        Some("\n sourcetype=WinEventLog:Microsoft-Windows-Sysmon/Operational EventCode=7 OR sourcetype=WinEventLog:Security EventCode=4688 sourcetype=WinEventLog:Security\n"),
    );
    assert_eq!(
        found,
        Some(AnalyticQuery {
            description: s("Suspicious DLL loads - rare\n index=x"),
            query: s("`sysmon` EventCode=7 OR `windows-security` EventCode=4688 `windows-security`"),
        })
    );
    assert_eq!(
        extract_analytic("Analytic without hyphen", Some("q")),
        Some(AnalyticQuery { description: s("Analytic without hyphen"), query: s("q") })
    );
}

#[test]
fn group_identifiers_are_a_letter_and_four_digits() {
    assert!(group_id("G0016"));
    assert!(group_id("G9999"));
    assert!(!group_id("G016"));
    assert!(!group_id("G00160"));
    assert!(!group_id("S0016"));
    assert!(!group_id("g0016"));
    assert!(!group_id("G00a6"));
    assert!(!group_id("G00\u{0663}6"));
    assert!(!group_id(""));
    assert!(!group_id(" G0016"));
}

#[test]
fn groups_come_once_and_in_order() {
    let rows = vec![
        vec![s(" G0016 "), s(" APT29 "), s("notes")],
        vec![s("S0154"), s("Cobalt Strike"), s("notes")],
        vec![s("G0007"), s("APT28"), s("notes")],
        vec![s("G0050"), s("APT32")],
        vec![s("G0016"), s("APT29"), s("again")],
        vec![s("G0096"), s("APT41"), s("n"), s("more")],
        vec![s("G0010"), s("Turla"), s("n")],
        vec![s("G0130"), s("Ajax Security Team"), s("n")],
        vec![],
    ];
    assert_eq!(
        extract_unique_apts(&rows),
        vec!["APT28", "APT29", "APT41", "Ajax Security Team", "Turla"]
    );
    assert_eq!(extract_unique_apts(&vec![]), Vec::<String>::new());
}

#[test]
fn groups_are_ordered_as_strings_are() {
    let names = ["b", "a", "B", "ab", "", "a", "\u{e9}", "z", "aa", "Z", "\u{1F600}", "\u{ffff}"];
    let rows: Vec<Vec<String>> = names.iter().map(|n| vec![s("G0001"), s(n), s("x")]).collect();
    let mut expected: Vec<String> = names.iter().map(|n| s(n)).collect();
    expected.sort();
    expected.dedup();
    assert_eq!(extract_unique_apts(&rows), expected);
}

fn details() -> MitreTechniqueDetails {
    assemble_details(
        "1055.001",
        (s("Process Injection"), s("Dynamic-link Library Injection")),
        vec![s("Defense Evasion"), s("Privilege Escalation")],
        s("Adversaries may inject DLLs."),
        s("Defense Evasion, Privilege Escalation"),
        vec![
            AnalyticQuery { description: s("DLL loads"), query: s("`sysmon` EventCode=7") },
            AnalyticQuery { description: s("Remote threads"), query: s("`sysmon` EventCode=8") },
        ],
        vec![s("APT28"), s("Turla")],
    )
}

#[test]
fn details_are_put_together() {
    let d = details();
    assert_eq!(d.id, "T1055.001");
    assert_eq!(d.name, "Process Injection");
    assert_eq!(d.subtechnique, "Dynamic-link Library Injection");
    assert_eq!(d.tactics, vec!["Defense Evasion", "Privilege Escalation"]);
    assert_eq!(d.hunting_trigger, "Adversaries may inject DLLs.");
    assert_eq!(d.mitre_category, "Defense Evasion, Privilege Escalation");
    assert_eq!(d.analytics.len(), 2);
    assert_eq!(d.apts, vec!["APT28", "Turla"]);
    assert_eq!(d.url, "https://attack.mitre.org/techniques/T1055/001/");
    assert_eq!(d.technique_id, "T1055");
    assert_eq!(d.subtechnique_id, "T1055.001");
}

#[test]
fn the_search_holds_the_particulars() {
    let d = details();
    let query = build_splunk_query(&d.analytics[0], &d, "APT28\",\"Turla", "2024-05-01");
    let expected = format!(
        r#"`indextime` {}
| eval hash_sha256=lower(hash_sha256),
hunting_trigger="{}",
mitre_category="{}",
mitre_technique="{}",
mitre_technique_id="{}",
mitre_subtechnique="{}",
mitre_subtechnique_id="{}",
apt=mvappend("{}"),
mitre_link="{}",
creator="Cpl Iverson",
upload_date="{}",
last_modify_date="{}",
mitre_version="v16",
priority="medium"
| `process_create_whitelist`
| eval indextime = _indextime
| convert ctime(indextime)
| table _time indextime event_description hash_sha256 host_fqdn user_name original_file_name process_path process_guid process_parent_path process_id process_parent_id process_command_line process_parent_command_line process_parent_guid mitre_category mitre_technique mitre_technique_id hunting_trigger mitre_subtechnique mitre_subtechnique_id apt mitre_link creator upload_date last_modify_date mitre_version priority
| collect `jarvis_index`
"#,
        "`sysmon` EventCode=7",
        "DLL loads",
        "Defense Evasion, Privilege Escalation",
        "Process Injection",
        "T1055",
        "Dynamic-link Library Injection",
        "T1055.001",
        "APT28\",\"Turla",
        "https://attack.mitre.org/techniques/T1055/001/",
        "2024-05-01",
        "2024-05-01"
    );
    assert_eq!(query, expected);
}

#[test]
fn searches_are_filed_by_category() {
    assert_eq!(
        category_folder("Defense Evasion, Privilege Escalation"),
        Some(s("MITRE_Alerts/Defense Evasion_Privilege Escalation"))
    );
    assert_eq!(category_folder("Execution"), Some(s("MITRE_Alerts/Execution")));
    assert_eq!(category_folder("a, , b,c"), Some(s("MITRE_Alerts/a__b,c")));
    for category in ["a,  b", ", ", ",, ,", "x, y, z", " ,", "a,\u{a0}b"] {
        assert_eq!(
            category_folder(category),
            Some(format!("MITRE_Alerts/{}", category.replace(", ", "_")))
        );
    }
    assert_eq!(category_folder(""), Some(s("MITRE_Alerts/")));
    assert_eq!(category_folder("Unknown"), None);
}

#[test]
fn files_are_named_after_technique_and_analytic() {
    assert_eq!(
        analytic_file_title("1055.001", "Process Injection", 1),
        "[T1055.001] Process Injection_Analytic_1.txt"
    );
    assert_eq!(analytic_file_title("1", "", 120), "[T1] _Analytic_120.txt");
    assert_eq!(analytic_file_title("1", "n", 0), "[T1] n_Analytic_0.txt");
}

#[test]
fn one_file_for_each_analytic() {
    let d = details();
    let files = save_analytics_to_files("1055.001", &d, "2024-05-01");
    assert_eq!(files.len(), 2);
    assert_eq!(
        files[0].0,
        "MITRE_Alerts/Defense Evasion_Privilege Escalation/[T1055.001] Process Injection_Analytic_1.txt"
    );
    assert_eq!(files[0].1, build_splunk_query(&d.analytics[0], &d, "APT28\",\"Turla", "2024-05-01"));
    assert_eq!(
        files[1].0,
        "MITRE_Alerts/Defense Evasion_Privilege Escalation/[T1055.001] Process Injection_Analytic_2.txt"
    );
    assert_eq!(files[1].1, build_splunk_query(&d.analytics[1], &d, "APT28\",\"Turla", "2024-05-01"));
}

#[test]
fn nothing_is_written_for_an_unknown_category_or_without_analytics() {
    let mut d = details();
    d.mitre_category = s("Unknown");
    assert!(save_analytics_to_files("1055.001", &d, "2024-05-01").is_empty());
    let mut d = details();
    d.analytics.clear();
    assert!(save_analytics_to_files("1055.001", &d, "2024-05-01").is_empty());
}
