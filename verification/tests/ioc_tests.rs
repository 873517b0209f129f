use detection_wizard::download::DownloadFormat;
use detection_wizard::ioc::{
    append_iocs, format_extension, ioc_file_name, ioc_list_name, ioc_repo_name, name_list_file,
    scan_lines, Indicators,
};
use detection_wizard::ioc_menu::IOCSelectorApp;
use detection_wizard::ui_ioc::{
    collect_urls, get_urls_for_ioc_type, ioc_repo_kinds, ioc_repos, repo_kinds_among,
};

fn s(x: &str) -> String {
    x.to_string()
}

fn pair(a: &str, b: &str) -> (String, String) {
    (s(a), s(b))
}

#[test]
fn list_files_are_named_by_kind_and_day() {
    assert_eq!(ioc_file_name("SHA256", "2024-05-01", DownloadFormat::Txt), "sha256-2024-05-01.txt");
    assert_eq!(ioc_file_name("Domain", "2024-05-01", DownloadFormat::Csv), "domain-2024-05-01.csv");
    assert_eq!(ioc_file_name("\u{c9}MAIL", "d", DownloadFormat::Txt), "\u{e9}mail-d.txt");
    assert_eq!(ioc_file_name("", "", DownloadFormat::Txt), "-.txt");
    assert_eq!(format_extension(DownloadFormat::Txt), "txt");
    assert_eq!(format_extension(DownloadFormat::Csv), "csv");
}

#[test]
fn text_joins_a_text_list_on_a_new_line() {
    assert_eq!(append_iocs("", " 1.1.1.1\n2.2.2.2 \n", DownloadFormat::Txt), "1.1.1.1\n2.2.2.2");
    assert_eq!(append_iocs(" \n\t", "a", DownloadFormat::Txt), "a");
    assert_eq!(append_iocs("x\ny\n", "\nz\n", DownloadFormat::Txt), "x\ny\nz");
    assert_eq!(append_iocs("x", "", DownloadFormat::Txt), "x\n");
    assert_eq!(append_iocs("", "", DownloadFormat::Txt), "");
    assert_eq!(append_iocs("\u{a0}x\u{3000}", "\u{2003}y\u{85}", DownloadFormat::Txt), "x\ny");
}

#[test]
fn text_joins_a_csv_list_after_a_comma() {
    assert_eq!(append_iocs("", " 1.1.1.1\n2.2.2.2 \n", DownloadFormat::Csv), "1.1.1.1,2.2.2.2");
    assert_eq!(append_iocs("a,b\n", "c\n\nd\r\ne", DownloadFormat::Csv), "a,b,c,,d\r,e");
    assert_eq!(append_iocs("a", "", DownloadFormat::Csv), "a,");
    assert_eq!(append_iocs(" ", "x", DownloadFormat::Csv), "x");
}

#[test]
fn joining_agrees_with_std() {
    let texts = ["", " ", "a", " a\nb ", "\n\na\n", "a\u{a0}", "\u{feff}a", "x,y\n", "\r\n"];
    for existing in texts {
        for text in texts {
            let txt = if existing.trim().is_empty() {
                text.trim().to_string()
            } else {
                format!("{}\n{}", existing.trim(), text.trim())
            };
            assert_eq!(append_iocs(existing, text, DownloadFormat::Txt), txt);
            let new_csv = text.trim().replace('\n', ",");
            let csv = if existing.trim().is_empty() {
                new_csv
            } else {
                format!("{},{}", existing.trim(), new_csv)
            };
            assert_eq!(append_iocs(existing, text, DownloadFormat::Csv), csv);
        }
    }
}

#[test]
fn clone_folders_are_named_without_git() {
    assert_eq!(ioc_repo_name("https://github.com/avast/ioc.git"), "ioc");
    assert_eq!(ioc_repo_name("https://github.com/sophoslabs/IoCs.git"), "IoCs");
    assert_eq!(ioc_repo_name("https://github.com/a/b"), "b");
    assert_eq!(ioc_repo_name("https://github.com/a/.github.git"), "hub");
    assert_eq!(ioc_repo_name("https://github.com/a/x.git.git/"), "");
    assert_eq!(ioc_repo_name("x.gi.gitt"), "x.git");
    assert_eq!(ioc_repo_name(""), "");
    for url in ["a/.git.gitx", "..gitgit", "a.git.b.git", ".gi.git.gitt", "/.git"] {
        let expected = url.split('/').last().unwrap_or("repo").replace(".git", "");
        assert_eq!(ioc_repo_name(url), expected, "{}", url);
    }
}

#[test]
fn indicators_are_read_line_by_line() {
    let lines: Vec<Vec<char>> = vec!["a 10.0.0.1 b", "", "10.0.0.2,10.0.0.1"]
        .into_iter()
        .map(|l| l.chars().collect())
        .collect();
    assert_eq!(
        scan_lines("\\b\\d{1,3}(?:\\.\\d{1,3}){3}\\b", &lines),
        Ok(vec![s("10.0.0.1"), s("10.0.0.2"), s("10.0.0.1")])
    );
    assert!(scan_lines("(", &lines).is_err());
    assert_eq!(scan_lines("(", &vec![]), Ok(vec![]));
}

#[test]
fn each_kind_of_indicator_is_kept_once() {
    let md5 = "d41d8cd98f00b204e9800998ecf8427e";
    let sha1 = "da39a3ee5e6b4b0d3255bfef95601890afd80709";
    let sha256 = "e3b0c44298fc1c149afbf4c8996fb92427ae41e4649b934ca495991b7852b855";
    let content = format!(
        "c2: evil.example.com 203.0.113.7\nhash {} {}\n{}\nEVIL.example.com again 203.0.113.7\n",
        md5, sha1, sha256
    );
    let mut found = Indicators::new();
    assert_eq!(found.scan(&content), Ok(()));
    assert_eq!(found.domains(), &vec![s("evil.example.com"), s("EVIL.example.com")]);
    assert_eq!(found.ips(), &vec![s("203.0.113.7")]);
    assert_eq!(found.md5s(), &vec![s(md5)]);
    assert_eq!(found.sha1s(), &vec![s(sha1)]);
    assert_eq!(found.sha256s(), &vec![s(sha256)]);

    assert_eq!(found.scan("198.51.100.1 and 203.0.113.7\nother.example.org"), Ok(()));
    assert_eq!(found.ips(), &vec![s("203.0.113.7"), s("198.51.100.1")]);
    assert_eq!(
        found.domains(),
        &vec![s("evil.example.com"), s("EVIL.example.com"), s("other.example.org")]
    );
}

#[test]
fn a_list_is_written_for_each_kind_that_has_members() {
    let mut found = Indicators::new();
    assert!(found.lists("2024-05-01").is_empty());
    found.scan("a.example.com\nb.example.com 192.0.2.1").unwrap();
    assert_eq!(
        found.lists("2024-05-01"),
        vec![
            pair("domain-2024-05-01.txt", "a.example.com\nb.example.com"),
            pair("ip-2024-05-01.txt", "192.0.2.1"),
        ]
    );
    assert_eq!(ioc_list_name("md5", "2024-05-01"), "md5-2024-05-01.txt");
}

#[test]
fn urls_are_looked_up_by_kind() {
    assert_eq!(get_urls_for_ioc_type("Filename"), vec!["https://www.botvrij.eu/data/ioclist.filename"]);
    assert_eq!(
        get_urls_for_ioc_type("SHA1"),
        vec![
            "https://www.botvrij.eu/data/ioclist.sha1",
            "https://raw.githubusercontent.com/bitdefender/malware-ioc/refs/heads/master/dark_nexus/all_bots.txt",
        ]
    );
    assert_eq!(get_urls_for_ioc_type("IP").len(), 21);
    assert_eq!(get_urls_for_ioc_type("Domain").len(), 8);
    assert_eq!(get_urls_for_ioc_type("URL").len(), 4);
    assert_eq!(get_urls_for_ioc_type("Email").len(), 2);
    assert_eq!(get_urls_for_ioc_type("Registry"), vec!["https://www.botvrij.eu/data/ioclist.regkey"]);
    assert_eq!(get_urls_for_ioc_type("MD5"), vec!["https://www.botvrij.eu/data/ioclist.md5"]);
    assert_eq!(get_urls_for_ioc_type("SHA256"), vec!["https://www.botvrij.eu/data/ioclist.sha256"]);
    assert!(get_urls_for_ioc_type("ip").is_empty());
    assert!(get_urls_for_ioc_type("").is_empty());
    assert_eq!(ioc_repos().len(), 13);
    assert_eq!(ioc_repos()[0], "https://github.com/avast/ioc.git");
    assert_eq!(ioc_repo_kinds(), vec!["MD5", "SHA1", "SHA256", "Domain", "IP"]);
}

#[test]
fn urls_are_gathered_kind_after_kind() {
    assert_eq!(
        collect_urls(&["SHA1", "nothing", "MD5"]),
        vec![
            pair("https://www.botvrij.eu/data/ioclist.sha1", "SHA1"),
            pair(
                "https://raw.githubusercontent.com/bitdefender/malware-ioc/refs/heads/master/dark_nexus/all_bots.txt",
                "SHA1"
            ),
            pair("https://www.botvrij.eu/data/ioclist.md5", "MD5"),
        ]
    );
    assert!(collect_urls(&[]).is_empty());
}

#[test]
fn ticked_kinds_are_picked_in_order() {
    let mut app = IOCSelectorApp::default();
    assert!(app.selected_types().is_empty());
    app.selected[6] = true;
    app.selected[1] = true;
    assert_eq!(app.selected_types(), vec!["SHA256", "URL"]);
    assert_eq!(app.output_path(), "ioc_output");
    app.custom_path = Some(s("/tmp/out"));
    assert_eq!(app.output_path(), "/tmp/out");
}

#[test]
fn a_run_without_conflicts_starts_at_once() {
    let mut app = IOCSelectorApp::default();
    let urls = vec![pair("u1", "IP"), pair("u2", "MD5")];
    assert_eq!(app.begin(urls.clone(), &vec![false, false]), Some(urls));
    assert!(!app.is_asking());
    assert!(!app.confirm_overwrite);
    assert!(app.pending_urls.is_none());
}

#[test]
fn a_run_with_conflicts_waits_for_the_user() {
    let mut app = IOCSelectorApp::default();
    let urls = vec![pair("u1", "IP"), pair("u2", "MD5"), pair("u3", "IP")];
    assert_eq!(app.begin(urls.clone(), &vec![true, false, true]), None);
    assert!(app.is_asking());
    assert!(app.confirm_overwrite);
    assert_eq!(app.pending_urls, Some(urls.clone()));
    assert_eq!(app.overwrite_queue, vec![pair("u1", "IP"), pair("u3", "IP")]);
    assert_eq!(app.take_ready(), None);

    app.on_skip();
    assert_eq!(app.overwrite_index, 1);
    assert!(app.is_asking());
    assert_eq!(app.take_ready(), None);
    app.on_skip();
    assert_eq!(app.overwrite_index, 2);
    assert!(!app.is_asking());
    app.on_skip();
    assert_eq!(app.overwrite_index, 2);
    assert_eq!(app.take_ready(), Some(urls));
    assert!(app.overwrite_queue.is_empty());
    assert_eq!(app.overwrite_index, 0);
    assert!(!app.confirm_overwrite);
    assert!(app.pending_urls.is_none());
    assert!(!app.yes_all);
    assert!(!app.skip_all);
}

#[test]
fn overwrite_ends_the_asking() {
    let mut app = IOCSelectorApp::default();
    let urls = vec![pair("u1", "IP"), pair("u2", "MD5")];
    app.begin(urls, &vec![false, true]);
    app.on_overwrite(false);
    assert!(!app.yes_all);
    assert!(!app.is_asking());
    assert_eq!(
        app.take_ready(),
        Some(vec![pair("u1", "IP"), pair("u2", "MD5"), pair("u2", "MD5")])
    );

    let mut app = IOCSelectorApp::default();
    app.begin(vec![pair("u1", "IP")], &vec![true]);
    app.on_overwrite(true);
    assert!(app.yes_all);
    assert!(!app.confirm_overwrite);
    assert_eq!(app.overwrite_index, 0);
    assert_eq!(app.take_ready(), Some(vec![pair("u1", "IP"), pair("u1", "IP")]));
}

#[test]
fn skip_all_passes_over_the_queue() {
    let mut app = IOCSelectorApp::default();
    let urls = vec![pair("u1", "IP"), pair("u2", "MD5"), pair("u3", "IP")];
    app.begin(urls.clone(), &vec![true, true, true]);
    app.on_skip_all();
    assert!(app.skip_all);
    assert_eq!(app.overwrite_index, 3);
    assert!(!app.is_asking());
    assert_eq!(app.take_ready(), Some(urls));
}

#[test]
fn with_nothing_waiting_an_empty_list_is_handed_out() {
    let mut app = IOCSelectorApp::default();
    assert_eq!(app.take_ready(), Some(vec![]));
}

#[test]
fn only_some_kinds_are_read_out_of_repositories() {
    assert_eq!(
        repo_kinds_among(&["Filename", "SHA256", "IP", "URL", "MD5", "IP"]),
        vec!["SHA256", "IP", "MD5", "IP"]
    );
    assert!(repo_kinds_among(&["Email", "Registry", "sha1"]).is_empty());
    assert!(repo_kinds_among(&[]).is_empty());
}

#[test]
fn a_list_file_is_named_from_its_kind_as_given() {
    assert_eq!(name_list_file("sha256", "2024-05-01", DownloadFormat::Txt), "sha256-2024-05-01.txt");
    assert_eq!(name_list_file("SHA256", "2024-05-01", DownloadFormat::Csv), "SHA256-2024-05-01.csv");
    assert_eq!(name_list_file("", "", DownloadFormat::Csv), "-.csv");
}
