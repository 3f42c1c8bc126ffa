//! News items, their sources and regions, and the text logic of the inference
//! models.
use vstd::prelude::*;
use crate::strs::{
    chars_of, is_whitespace, is_ws, join_seq, join_strings, owned, push_str, string_of, strings,
};

verus! {

/// Configurations that point at a service by URL.
pub trait UrlConfig {
    /// The URL of the service.
    fn get_url(&self) -> String;

    /// Point the configuration at `url`.
    fn with_url(&mut self, url: &str);

    /// The host of the service.
    fn get_host(&self) -> String;

    /// The port of the service.
    fn get_port(&self) -> u16;
}

/// Errors of the news tracker.
#[derive(Debug, Clone)]
pub enum CoreError {
    Database(String),
    InvalidUrl(String),
    Scraping(String),
    Inference(String),
    Storage(String),
}

impl CoreError {
    /// The description of the error.
    pub open spec fn message(&self) -> Seq<char> {
        match self {
            CoreError::Database(m) => "Database error: "@ + m@,
            CoreError::InvalidUrl(m) => "Invalid URL: "@ + m@,
            CoreError::Scraping(m) => "Scraping error: "@ + m@,
            CoreError::Inference(m) => "Inference error: "@ + m@,
            CoreError::Storage(m) => "Storage error: "@ + m@,
        }
    }

    /// The description of the error.
    pub fn to_string(&self) -> (r: String)
        ensures
            r@ == self.message(),
    {
        let (prefix, m) = match self {
            CoreError::Database(m) => ("Database error: ", m),
            CoreError::InvalidUrl(m) => ("Invalid URL: ", m),
            CoreError::Scraping(m) => ("Scraping error: ", m),
            CoreError::Inference(m) => ("Inference error: ", m),
            CoreError::Storage(m) => ("Storage error: ", m),
        };
        let mut s = owned(prefix);
        push_str(&mut s, m.as_str());
        s
    }
}

/// Whether an article is new, updated or unchanged.
#[derive(Debug, Clone, Copy, PartialEq, Eq, Structural)]
pub enum ArticleStatus {
    New,
    Updated,
    Unchanged,
}

/// A region that news sources belong to.
#[derive(Debug, Clone, Copy)]
pub struct RegionMetadata {
    pub name: &'static str,
    pub emoji: &'static str,
}

/// A news source and its region.
#[derive(Debug, Clone, Copy)]
pub struct SourceMetadata {
    pub name: &'static str,
    pub emoji: &'static str,
    pub region: RegionMetadata,
}

/// A section of an article that one source covers differently from others.
#[derive(Debug, Clone)]
pub struct Divergence {
    pub source: String,
    pub section: String,
    pub summary: Option<String>,
}

/// The text of an optional string.
pub open spec fn opt_text(s: Option<String>) -> Option<Seq<char>> {
    match s {
        Some(t) => Some(t@),
        None => None,
    }
}

/// What choosing and configuring an inference model reads of the settings.
#[derive(Debug, Clone)]
pub struct InferenceConfig {
    /// The API key for the model
    pub api_key: Option<String>,
    /// The name of the model
    pub model_name: Option<String>,
}

/// The DeepSeek model; its API key is never shown.
pub struct DeepSeekModel {
    api_key: Option<String>,
}

impl DeepSeekModel {
    /// The API key the model holds, if any.
    pub closed spec fn key(&self) -> Option<Seq<char>> {
        opt_text(self.api_key)
    }

    /// Whether the model holds an API key.
    pub open spec fn has_key(&self) -> bool {
        self.key() is Some
    }

    /// A model with the given API key; creation cannot fail.
    pub fn new(api_key: Option<String>) -> (r: Result<Self, CoreError>)
        ensures
            r matches Ok(m) && m.key() == opt_text(api_key),
    {
        Ok(DeepSeekModel { api_key })
    }

    /// The name of the model.
    pub fn name(&self) -> (r: &str)
        ensures
            r@ == "DeepSeek"@,
    {
        "DeepSeek"
    }

    /// The summary of an article with the given title.
    pub fn summarize_article(&self, title: &str) -> (r: String)
        ensures
            r@ == "Summary of: "@ + title@,
    {
        let mut s = owned("Summary of: ");
        push_str(&mut s, title);
        s
    }

    /// The summaries of sections with the given contents, one each.
    pub fn summarize_sections(&self, sections: &[String]) -> (r: Vec<String>)
        ensures
            strings(r@) == strings(sections@).map_values(|c: Seq<char>| "Summary of section: "@ + c),
    {
        let mut out: Vec<String> = Vec::new();
        let mut i: usize = 0;
        while i < sections.len()
            invariant
                i <= sections@.len(),
                strings(out@) == strings(sections@).take(i as int).map_values(
                    |c: Seq<char>| "Summary of section: "@ + c,
                ),
            decreases sections@.len() - i,
        {
            let mut s = owned("Summary of section: ");
            push_str(&mut s, sections[i].as_str());
            let ghost before = strings(out@);
            out.push(s);
            proof {
                let all = strings(sections@);
                assert(all[i as int] == sections@[i as int]@);
                assert(strings(out@) =~= before.push(s@));
                assert(all.take(i as int + 1) =~= all.take(i as int).push(all[i as int]));
                assert(strings(out@) =~= all.take(i as int + 1).map_values(
                    |c: Seq<char>| "Summary of section: "@ + c,
                ));
            }
            i = i + 1;
        }
        assert(strings(sections@).take(sections@.len() as int) =~= strings(sections@));
        out
    }

    /// The debug text of the model, with the key redacted.
    pub fn debug_text(&self) -> (r: String)
        ensures
            r@ == if self.has_key() {
                "DeepSeekModel { api_key: Some(\"<redacted>\") }"@
            } else {
                "DeepSeekModel { api_key: None }"@
            },
    {
        match &self.api_key {
            Some(_) => owned("DeepSeekModel { api_key: Some(\"<redacted>\") }"),
            None => owned("DeepSeekModel { api_key: None }"),
        }
    }
}

/// The inference model for `config`: the DeepSeek model, holding the API key of
/// the configuration when there is one.
pub fn create_model(config: Option<InferenceConfig>) -> (r: Result<DeepSeekModel, CoreError>)
    ensures
        r matches Ok(m) && m.key() == match config {
            Some(c) => opt_text(c.api_key),
            None => None,
        },
{
    let api_key = match config {
        Some(c) => c.api_key,
        None => None,
    };
    DeepSeekModel::new(api_key)
}

/// The words of `s`: its maximal runs of non-whitespace characters, in order.
pub open spec fn words(s: Seq<char>) -> Seq<Seq<char>>
    decreases s.len(),
{
    if s.len() == 0 {
        Seq::empty()
    } else {
        let w = words(s.drop_last());
        let c = s.last();
        if is_ws(c) {
            w
        } else if s.len() >= 2 && !is_ws(s[s.len() - 2]) && w.len() > 0 {
            w.update(w.len() - 1, w.last().push(c))
        } else {
            w.push(seq![c])
        }
    }
}

/// The first `n` elements of `s` (all of them when there are fewer).
pub open spec fn first_n<A>(s: Seq<A>, n: nat) -> Seq<A> {
    if s.len() > n {
        s.take(n as int)
    } else {
        s
    }
}

/// The words of `s`.
pub fn split_words(s: &str) -> (r: Vec<String>)
    ensures
        strings(r@) == words(s@),
{
    let chars = chars_of(s);
    let mut out: Vec<String> = Vec::new();
    let mut cur: Vec<char> = Vec::new();
    let mut i: usize = 0;
    while i < chars.len()
        invariant
            i <= chars@.len(),
            chars@ == s@,
            (if cur@.len() > 0 {
                strings(out@).push(cur@)
            } else {
                strings(out@)
            }) == words(chars@.take(i as int)),
            cur@.len() > 0 ==> i > 0 && !is_ws(chars@[i - 1]),
            i > 0 && !is_ws(chars@[i - 1]) ==> cur@.len() > 0,
        decreases chars@.len() - i,
    {
        let c = chars[i];
        let ghost prev = chars@.take(i as int);
        proof {
            let t = chars@.take(i as int + 1);
            assert(t.drop_last() =~= prev);
            assert(t.last() == c);
            if i >= 1 {
                assert(t[t.len() - 2] == chars@[i - 1]);
            }
        }
        if is_whitespace(c) {
            if cur.len() > 0 {
                let w = string_of(cur.as_slice());
                let ghost before = strings(out@);
                out.push(w);
                assert(strings(out@) =~= before.push(cur@));
                cur = Vec::new();
            }
        } else {
            let ghost before = cur@;
            cur.push(c);
            proof {
                let o = strings(out@);
                if before.len() > 0 {
                    assert(o.push(before).update(o.len() as int, before.push(c)) =~= o.push(cur@));
                } else {
                    assert(cur@ =~= seq![c]);
                }
            }
        }
        i = i + 1;
    }
    assert(chars@.take(chars@.len() as int) =~= chars@);
    if cur.len() > 0 {
        let w = string_of(cur.as_slice());
        let ghost before = strings(out@);
        out.push(w);
        assert(strings(out@) =~= before.push(cur@));
    }
    out
}

/// The dummy model, which summarizes by taking the first words.
#[derive(Debug, Clone, Copy)]
pub struct DummyModel;

/// The number of words a dummy summary keeps.
pub const SUMMARY_WORDS: usize = 20;

impl DummyModel {
    /// The dummy model; creation cannot fail.
    pub fn new() -> (r: Result<Self, CoreError>)
        ensures
            r is Ok,
    {
        Ok(DummyModel)
    }

    /// The name of the model.
    pub fn name(&self) -> (r: &str)
        ensures
            r@ == "Dummy"@,
    {
        "Dummy"
    }

    /// The first 20 words of `content`, separated by single spaces.
    pub fn summarize_article(&self, content: &str) -> (r: String)
        ensures
            r@ == join_seq(first_n(words(content@), SUMMARY_WORDS as nat), " "@),
    {
        let mut ws = split_words(content);
        if ws.len() > SUMMARY_WORDS {
            ws.truncate(SUMMARY_WORDS);
        }
        proof {
            assert(strings(ws@) =~= first_n(words(content@), SUMMARY_WORDS as nat));
        }
        join_strings(ws.as_slice(), " ")
    }

    /// The summaries of sections with the given contents, one each.
    pub fn summarize_sections(&self, sections: &[String]) -> (r: Vec<String>)
        ensures
            strings(r@) == strings(sections@).map_values(
                |c: Seq<char>| join_seq(first_n(words(c), SUMMARY_WORDS as nat), " "@),
            ),
    {
        let mut out: Vec<String> = Vec::new();
        let mut i: usize = 0;
        while i < sections.len()
            invariant
                i <= sections@.len(),
                strings(out@) == strings(sections@).take(i as int).map_values(
                    |c: Seq<char>| join_seq(first_n(words(c), SUMMARY_WORDS as nat), " "@),
                ),
            decreases sections@.len() - i,
        {
            let s = self.summarize_article(sections[i].as_str());
            let ghost before = strings(out@);
            out.push(s);
            proof {
                let all = strings(sections@);
                assert(all[i as int] == sections@[i as int]@);
                assert(strings(out@) =~= before.push(s@));
                assert(all.take(i as int + 1) =~= all.take(i as int).push(all[i as int]));
                assert(strings(out@) =~= all.take(i as int + 1).map_values(
                    |c: Seq<char>| join_seq(first_n(words(c), SUMMARY_WORDS as nat), " "@),
                ));
            }
            i = i + 1;
        }
        assert(strings(sections@).take(sections@.len() as int) =~= strings(sections@));
        out
    }
}

/// The configuration of the LangChain model: where its Ollama server is.
#[derive(Debug, Clone)]
pub struct LangChainModelConfig {
    ollama_host: String,
}

/// The Ollama server used when none is configured.
pub open spec fn default_ollama_host() -> Seq<char> {
    "http://localhost:11434"@
}

impl Default for LangChainModelConfig {
    fn default() -> (r: Self)
        ensures
            r.host() == default_ollama_host(),
    {
        LangChainModelConfig { ollama_host: owned("http://localhost:11434") }
    }
}

impl LangChainModelConfig {
    /// The Ollama host.
    pub closed spec fn host(&self) -> Seq<char> {
        self.ollama_host@
    }

    /// The configuration for the model URL of an inference configuration, or the
    /// default host when there is none.
    pub fn from_model_url(model_url: Option<String>) -> (r: Self)
        ensures
            r.host() == match model_url {
                Some(u) => u@,
                None => default_ollama_host(),
            },
    {
        match model_url {
            Some(u) => LangChainModelConfig { ollama_host: u },
            None => LangChainModelConfig::default(),
        }
    }

    /// The Ollama host.
    pub fn get_ollama_host(&self) -> (r: &str)
        ensures
            r@ == self.host(),
    {
        self.ollama_host.as_str()
    }
}

} // verus!
