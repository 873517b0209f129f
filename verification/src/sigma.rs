//! Sigma rules gathered by crawling: repositories cloned whole, and web sources
//! that are rule files or pages of links.

use vstd::prelude::*;
use crate::filter::{has_extension, has_listed_extension};
use crate::links::{ends_in_any, is_rule_url};
use crate::text::strs;

verus! {

/// The repository that is cloned first.
pub open spec fn sigma_base_repo_catalog() -> Seq<Seq<char>> {
    seq![
        "https://github.com/SigmaHQ/sigma.git"@,
    ]
}

/// The repository that is cloned first.
pub fn sigma_base_repo() -> (v: Vec<&'static str>)
    ensures
        strs(v@) == sigma_base_repo_catalog(),
        v@.len() == 1,
{
    let v = vec![
        "https://github.com/SigmaHQ/sigma.git",
    ];
    assert(strs(v@) =~= sigma_base_repo_catalog());
    v
}

/// Further repositories that hold Sigma rules.
pub open spec fn sigma_github_repos_catalog() -> Seq<Seq<char>> {
    seq![
        "https://github.com/example/sigma-rules-1.git"@,
        "https://github.com/example/sigma-rules-2.git"@,
    ]
}

/// Further repositories that hold Sigma rules.
pub fn sigma_github_repos() -> (v: Vec<&'static str>)
    ensures
        strs(v@) == sigma_github_repos_catalog(),
        v@.len() == 2,
{
    let v = vec![
        "https://github.com/example/sigma-rules-1.git",
        "https://github.com/example/sigma-rules-2.git",
    ];
    assert(strs(v@) =~= sigma_github_repos_catalog());
    v
}

/// The web sources of Sigma rules.
pub open spec fn sigma_webpage_sources_catalog() -> Seq<Seq<char>> {
    seq![
        "https://example.com/sigma/rules_page.html"@,
        "https://raw.githubusercontent.com/example/sigma/main/sample.yml"@,
    ]
}

/// The web sources of Sigma rules.
pub fn sigma_webpage_sources() -> (v: Vec<&'static str>)
    ensures
        strs(v@) == sigma_webpage_sources_catalog(),
        v@.len() == 2,
{
    let v = vec![
        "https://example.com/sigma/rules_page.html",
        "https://raw.githubusercontent.com/example/sigma/main/sample.yml",
    ];
    assert(strs(v@) =~= sigma_webpage_sources_catalog());
    v
}

/// The endings by which a URL is taken for a Sigma rule file.
pub open spec fn rule_url_suffixes_catalog() -> Seq<Seq<char>> {
    seq![
        ".yml"@,
        ".yaml"@,
    ]
}

/// The endings by which a URL is taken for a Sigma rule file.
pub fn rule_url_suffixes() -> (v: Vec<&'static str>)
    ensures
        strs(v@) == rule_url_suffixes_catalog(),
        v@.len() == 2,
{
    let v = vec![
        ".yml",
        ".yaml",
    ];
    assert(strs(v@) =~= rule_url_suffixes_catalog());
    v
}

/// The extensions by which a file of a clone is taken for a Sigma rule file.
pub open spec fn rule_extensions_catalog() -> Seq<Seq<char>> {
    seq![
        "yml"@,
        "yaml"@,
    ]
}

/// The extensions by which a file of a clone is taken for a Sigma rule file.
pub fn rule_extensions() -> (v: Vec<&'static str>)
    ensures
        strs(v@) == rule_extensions_catalog(),
        v@.len() == 2,
{
    let v = vec![
        "yml",
        "yaml",
    ];
    assert(strs(v@) =~= rule_extensions_catalog());
    v
}

/// Says whether a web source is a Sigma rule file to fetch as it is. Any other is a
/// page, which is searched for links to follow.
pub fn names_rule_file(url: &str) -> (r: bool)
    ensures
        r == ends_in_any(url@, rule_url_suffixes_catalog()),
{
    let suffixes = rule_url_suffixes();
    is_rule_url(url, suffixes.as_slice())
}

/// Says whether a file found in a clone is a Sigma rule file, going by its extension.
pub fn is_rule_file(file_name: &str) -> (r: bool)
    ensures
        r == has_listed_extension(file_name@, rule_extensions_catalog()),
{
    let extensions = rule_extensions();
    has_extension(file_name, extensions.as_slice())
}

} // verus!
