use detection_wizard::links::{
    is_rule_url, parse_links_from_html, parse_links_from_markdown, rule_section,
};
use detection_wizard::patterns::collect_group;

#[test]
fn html_links_are_the_quoted_http_hrefs() {
    let html = r#"<a href="https://example.com/a.yar">a</a>
<a class="x" href="http://example.org/rules/">b</a><a href="/local/c.yar">c</a>
<a href='https://example.com/single.yar'>d</a><link href="ftp://example.com/e">"#;
    assert_eq!(
        parse_links_from_html(html),
        Ok(vec!["https://example.com/a.yar".to_string(), "http://example.org/rules/".to_string()])
    );
}

#[test]
fn a_page_without_links_gives_none() {
    assert_eq!(parse_links_from_html(""), Ok(vec![]));
    assert_eq!(parse_links_from_html("href=\"https://\""), Ok(vec![]));
    assert_eq!(parse_links_from_html("https://example.com/a.yar"), Ok(vec![]));
}

#[test]
fn markdown_links_are_taken_between_the_two_headings() {
    let md = "# Awesome\n\
[before](https://example.com/before)\n\
## Rules\n\
* [One](https://github.com/a/one) - first\r\n\
* [Two](http://github.com/b/two) and [Three](https://github.com/c/three)\n\
* no link here, [local](./local.md)\n\
## Tools\n\
* [Tool](https://github.com/d/tool)\n\
## Rules\n\
* [Late](https://github.com/e/late)\n";
    assert_eq!(
        parse_links_from_markdown(md),
        Ok(vec![
            "https://github.com/a/one".to_string(),
            "http://github.com/b/two".to_string(),
            "https://github.com/c/three".to_string(),
        ])
    );
}

#[test]
fn markdown_without_a_rule_section_gives_none() {
    assert_eq!(parse_links_from_markdown("[a](https://example.com)\n"), Ok(vec![]));
    assert_eq!(parse_links_from_markdown(""), Ok(vec![]));
    assert_eq!(parse_links_from_markdown("## Tools\n## Rules\n[a](https://example.com)"), Ok(vec![]));
}

#[test]
fn a_heading_line_is_not_searched_itself() {
    let md = "intro ## Rules [x](https://example.com/x)\n[y](https://example.com/y)";
    assert_eq!(parse_links_from_markdown(md), Ok(vec!["https://example.com/y".to_string()]));
}

#[test]
fn a_group_is_picked_where_it_took_part() {
    let found = vec![
        vec![Some("ab".to_string()), Some("a".to_string()), None],
        vec![Some("c".to_string())],
        vec![Some("de".to_string()), None, Some("e".to_string())],
        vec![],
    ];
    assert_eq!(collect_group(&found, 0), vec!["ab", "c", "de"]);
    assert_eq!(collect_group(&found, 1), vec!["a"]);
    assert_eq!(collect_group(&found, 2), vec!["e"]);
    assert_eq!(collect_group(&found, 3), Vec::<String>::new());
}

#[test]
fn rule_urls_are_told_by_their_ending() {
    let suffixes = [".xml", ".json", ".rules", ".aql"];
    assert!(is_rule_url("https://example.com/sample_rules.xml", &suffixes));
    assert!(is_rule_url("https://example.com/q.aql", &suffixes));
    assert!(!is_rule_url("https://example.com/q.AQL", &suffixes));
    assert!(!is_rule_url("https://example.com/page.html", &suffixes));
    assert!(!is_rule_url("xml", &suffixes));
    assert!(is_rule_url(".xml", &suffixes));
    assert!(!is_rule_url("", &suffixes));
    assert!(!is_rule_url("https://example.com/sample_rules.xml", &[]));
    assert!(is_rule_url("anything", &[""]));
}

fn section(markdown: &str) -> Vec<String> {
    rule_section(markdown).into_iter().map(|line| line.into_iter().collect()).collect()
}

#[test]
fn the_rule_section_lies_between_the_two_headings() {
    let md = "intro\n## Rules\nfirst\r\n\nsecond ## Rules again\nthird\n## Tools etc\nfourth\n## Rules\nfifth";
    assert_eq!(section(md), vec!["first", "", "third"]);
    assert_eq!(section("## Tools\n## Rules\nlate"), Vec::<String>::new());
    assert_eq!(section("no headings\nat all"), Vec::<String>::new());
    assert_eq!(section("## Rules"), Vec::<String>::new());
    assert_eq!(section("## Rules\nopen end\nlast"), vec!["open end", "last"]);
    assert_eq!(section(""), Vec::<String>::new());
}
