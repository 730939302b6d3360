//! The GitHub trending tool: cleaning one scraped listing row.
//!
//! Fetching and walking the trending page happen outside the library; each
//! row arrives here as the raw strings found in it, and
//! [`GithubTrendingTool::assemble_row`] trims and normalizes them into one
//! [`GithubTrendingData`] record.

use vstd::prelude::*;

use crate::text::{remove_char, spec_remove_char, trim_of, trimmed};

verus! {

/// The tool itself; it carries no state.
#[derive(Debug)]
pub struct GithubTrendingTool;

/// The tool takes no arguments.
#[derive(Debug, Default, PartialEq, Eq, Structural)]
pub struct EmptyArgs {}

/// Why a trending lookup failed.
#[derive(Debug, PartialEq, Eq)]
pub enum GithubTrendingToolError {
    /// The page could not be fetched.
    Network(String),
    /// A selector over the page could not be parsed.
    Selector(String),
}

/// One cleaned row of the trending listing.
#[derive(Debug, PartialEq)]
pub struct GithubTrendingData {
    pub title: String,
    pub description: String,
    pub url: String,
    pub language: String,
    pub stars: String,
    pub forks: String,
    pub today_stars: String,
}

/// The raw strings one listing row yields before cleaning: each field is
/// the concatenated text under its selector, and `href` is the repository
/// link when the row carries one.
#[derive(Debug)]
pub struct RawTrendingRow {
    pub title: String,
    pub description: String,
    pub href: Option<String>,
    pub language: String,
    pub stars: String,
    pub forks: String,
    pub today_stars: String,
}

/// The cleaned title: trimmed, with line breaks removed, re-trimmed, with
/// spaces removed, re-trimmed.
pub open spec fn spec_clean_title(raw: Seq<char>) -> Seq<char> {
    trim_of(spec_remove_char(trim_of(spec_remove_char(trim_of(raw), '\n')), ' '))
}

/// The absolute repository link of a row, or empty when the row has none.
pub open spec fn spec_repo_url(href: Option<String>) -> Seq<char> {
    match href {
        Option::Some(h) => "https://github.com"@ + h@,
        Option::None => Seq::<char>::empty(),
    }
}

impl GithubTrendingTool {
    /// The tool's wire definition: its name, what it offers, and the empty
    /// argument schema.
    pub fn definition(&self) -> (r: crate::bigmodel::ToolDefinition)
        ensures
            r.name@ == "GithubTrendingTool"@,
            r.description@ == "获取github趋势榜单"@,
            r.parameters@
                == "{\"type\":\"object\",\"title\":\"No parameters\",\"properties\":{},\"additionalProperties\":false}"@,
    {
        crate::bigmodel::ToolDefinition {
            name: "GithubTrendingTool".to_owned(),
            description: "获取github趋势榜单".to_owned(),
            parameters:
                "{\"type\":\"object\",\"title\":\"No parameters\",\"properties\":{},\"additionalProperties\":false}".to_owned(),
        }
    }

    /// Clean one raw listing row into a trending record: the title loses
    /// its whitespace, every text field is trimmed, and the link becomes
    /// absolute.
    pub fn assemble_row(&self, raw: &RawTrendingRow) -> (r: GithubTrendingData)
        ensures
            r.title@ == spec_clean_title(raw.title@),
            r.description@ == trim_of(raw.description@),
            r.url@ == spec_repo_url(raw.href),
            r.language@ == trim_of(raw.language@),
            r.stars@ == trim_of(raw.stars@),
            r.forks@ == trim_of(raw.forks@),
            r.today_stars@ == trim_of(raw.today_stars@),
    {
        let t0 = trimmed(raw.title.as_str());
        let t1 = trimmed(remove_char(t0.as_str(), '\n').as_str());
        let title = trimmed(remove_char(t1.as_str(), ' ').as_str());
        let url = match &raw.href {
            Option::Some(h) => {
                let mut link = "https://github.com".to_owned();
                link.append(h.as_str());
                link
            },
            Option::None => String::new(),
        };
        GithubTrendingData {
            title,
            description: trimmed(raw.description.as_str()),
            url,
            language: trimmed(raw.language.as_str()),
            stars: trimmed(raw.stars.as_str()),
            forks: trimmed(raw.forks.as_str()),
            today_stars: trimmed(raw.today_stars.as_str()),
        }
    }
}

} // verus!
