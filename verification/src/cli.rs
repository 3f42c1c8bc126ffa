//! The news tracker's command line, as values, and the decisions its main
//! program makes from them.
use vstd::prelude::*;
use crate::duration::HumanDuration;
use crate::strs::owned;

verus! {

/// What to scrape.
#[derive(Debug, Clone)]
pub enum ScraperCommands {
    /// Scrape one source (`country/source`), or all of them; periodically when an
    /// interval is given.
    Source { source: Option<String>, interval: Option<HumanDuration> },
    /// List the sources.
    List,
    /// Scrape one article.
    Url { url: String },
}

/// The commands of the command line.
#[derive(Debug, Clone)]
pub enum Commands {
    Scrape { command: Option<ScraperCommands> },
}

/// The command line.
#[derive(Debug, Clone)]
pub struct Cli {
    pub storage: String,
    pub model_url: Option<String>,
    pub backend_url: Option<String>,
    pub model: String,
    pub command: Commands,
}

impl ScraperCommands {
    /// The scrape command to run: the one given, or scraping every source once.
    pub fn or_default(command: Option<ScraperCommands>) -> (r: ScraperCommands)
        ensures
            match command {
                Some(c) => r == c,
                None => r matches ScraperCommands::Source { source: None, interval: None },
            },
    {
        match command {
            Some(c) => c,
            None => ScraperCommands::Source { source: None, interval: None },
        }
    }
}

/// What a scrape of `source` is announced as: the source, or all sources when
/// there is none or it is empty.
pub fn source_label(source: &Option<String>) -> (r: String)
    ensures
        match source {
            Some(s) => r@ == if s@.len() == 0 {
                "all sources"@
            } else {
                s@
            },
            None => r@ == "all sources"@,
        },
{
    match source {
        Some(s) => {
            if s.unicode_len() == 0 {
                owned("all sources")
            } else {
                owned(s.as_str())
            }
        },
        None => owned("all sources"),
    }
}

} // verus!
