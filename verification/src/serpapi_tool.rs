//! The web-search tool backed by a search API.
//!
//! The HTTP call happens outside the library;
//! [`SerpapiTool::build_search_params`] assembles the exact query
//! parameters a search sends: the engine, the query, the optional time
//! range, country and language filters, and the credential.

use vstd::prelude::*;

verus! {

/// The search tool: a credential and nothing else.
#[derive(Debug)]
pub struct SerpapiTool {
    pub api_key: String,
}

/// Why a search failed.
#[derive(Debug, PartialEq, Eq)]
pub enum SerpapiError {
    /// The reply could not be decoded.
    JsonError(String),
    /// The request could not be made.
    RequestError(String),
    /// The reply carried no organic results.
    CustomError(String),
}

/// The caller's search: the query and its optional filters.
#[derive(Debug)]
pub struct SerpapiArgs {
    /// Time range filter, e.g. `qdr:d` for the last day.
    pub tbs: Option<String>,
    /// Country filter, e.g. `us` or `cn`.
    pub gl: Option<String>,
    /// Language filter, e.g. `en` or `zh-cn`.
    pub hl: Option<String>,
    /// The search terms.
    pub query: String,
}

impl SerpapiTool {
    pub fn new(api_key: &str) -> (r: Self)
        ensures
            r.api_key@ == api_key@,
    {
        SerpapiTool { api_key: api_key.to_owned() }
    }

    /// The key-value parameters of one search, in order: the fixed engine,
    /// the query, each filter that is set, and the credential last.
    pub fn build_search_params(&self, args: &SerpapiArgs) -> (r: Vec<(String, String)>)
        ensures
            ({
                let tn: int = if args.tbs is Some {
                    1
                } else {
                    0
                };
                let gn: int = if args.gl is Some {
                    1
                } else {
                    0
                };
                let hn: int = if args.hl is Some {
                    1
                } else {
                    0
                };
                &&& r@.len() == 3 + tn + gn + hn
                &&& r@[0].0@ == "engine"@ && r@[0].1@ == "google"@
                &&& r@[1].0@ == "q"@ && r@[1].1@ == args.query@
                &&& (args.tbs matches Some(v) ==> (r@[2].0@ == "tbs"@ && r@[2].1@ == v@))
                &&& (args.gl matches Some(v) ==> (r@[2 + tn].0@ == "gl"@ && r@[2 + tn].1@
                    == v@))
                &&& (args.hl matches Some(v) ==> (r@[2 + tn + gn].0@ == "hl"@ && r@[2 + tn
                    + gn].1@ == v@))
                &&& r@[2 + tn + gn + hn].0@ == "api_key"@ && r@[2 + tn + gn + hn].1@
                    == self.api_key@
            }),
    {
        let mut params: Vec<(String, String)> = Vec::new();
        params.push(("engine".to_owned(), "google".to_owned()));
        params.push(("q".to_owned(), args.query.clone()));
        match &args.tbs {
            Option::Some(v) => {
                params.push(("tbs".to_owned(), v.clone()));
            },
            Option::None => {},
        }
        match &args.gl {
            Option::Some(v) => {
                params.push(("gl".to_owned(), v.clone()));
            },
            Option::None => {},
        }
        match &args.hl {
            Option::Some(v) => {
                params.push(("hl".to_owned(), v.clone()));
            },
            Option::None => {},
        }
        params.push(("api_key".to_owned(), self.api_key.clone()));
        params
    }
}

} // verus!
