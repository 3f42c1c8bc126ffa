use nt_progress::cli::{source_label, ScraperCommands};
use nt_progress::duration::HumanDuration;
use nt_progress::news::{
    create_model, split_words, ArticleStatus, CoreError, DeepSeekModel, Divergence, DummyModel,
    InferenceConfig, LangChainModelConfig, RegionMetadata, SourceMetadata,
};

#[test]
fn deepseek_summaries_and_redaction() {
    let model = DeepSeekModel::new(Some("SECRET-REDACTED".to_string())).ok().unwrap();
    assert_eq!(model.name(), "DeepSeek");
    assert_eq!(model.summarize_article("Test Article"), "Summary of: Test Article");
    assert_eq!(
        model.summarize_sections(&["a".to_string(), "b".to_string()]),
        vec!["Summary of section: a", "Summary of section: b"]
    );
    assert_eq!(model.debug_text(), "DeepSeekModel { api_key: Some(\"<redacted>\") }");
    let model = DeepSeekModel::new(None).ok().unwrap();
    assert_eq!(model.debug_text(), "DeepSeekModel { api_key: None }");
}

#[test]
fn dummy_summaries_keep_twenty_words() {
    let model = DummyModel::new().ok().unwrap();
    assert_eq!(model.name(), "Dummy");
    let text: Vec<String> = (1..=25).map(|i| format!("w{}", i)).collect();
    let content = format!("  {}\n", text.join(" \t "));
    let summary = model.summarize_article(&content);
    assert_eq!(summary, text[..20].join(" "));
    assert_eq!(model.summarize_article("  a  b "), "a b");
    assert_eq!(model.summarize_sections(&["x y".to_string()]), vec!["x y"]);
    assert_eq!(split_words(" a\u{3000}b  c "), vec!["a", "b", "c"]);
}

#[test]
fn langchain_host_defaults() {
    assert_eq!(LangChainModelConfig::default().get_ollama_host(), "http://localhost:11434");
    let cfg = LangChainModelConfig::from_model_url(Some("http://ollama:1".to_string()));
    assert_eq!(cfg.get_ollama_host(), "http://ollama:1");
    let cfg = LangChainModelConfig::from_model_url(None);
    assert_eq!(cfg.get_ollama_host(), "http://localhost:11434");
}

#[test]
fn news_values() {
    let region = RegionMetadata { name: "Argentina", emoji: "🇦🇷" };
    let source = SourceMetadata { name: "Clarín", emoji: "📰", region };
    assert_eq!(source.region.name, "Argentina");
    assert_eq!(ArticleStatus::New, ArticleStatus::New);
    let d = Divergence { source: "s".to_string(), section: "x".to_string(), summary: None };
    assert!(d.summary.is_none());
    assert_eq!(CoreError::Storage("down".to_string()).to_string(), "Storage error: down");
}

#[test]
fn human_durations() {
    assert_eq!(HumanDuration::from_str("1h15m30s").unwrap().seconds, 4530);
    assert_eq!(HumanDuration::from_str("90").unwrap().seconds, 90);
    assert_eq!(HumanDuration::from_str("2d 3").unwrap().seconds, 172803);
    assert_eq!(HumanDuration::from_str("5x").unwrap_err(), "Invalid duration unit: x");
    assert_eq!(HumanDuration::from_str("m").unwrap_err(), "Invalid character in duration: m");
    assert_eq!(HumanDuration::from_str(" ").unwrap_err(), "Duration must include a number");
    assert_eq!(HumanDuration::from_str("99999999999999999999").unwrap_err(), "Invalid number in duration");
}

#[test]
fn command_line_defaults() {
    match ScraperCommands::or_default(None) {
        ScraperCommands::Source { source, interval } => {
            assert!(source.is_none());
            assert!(interval.is_none());
        }
        _ => panic!("expected Source"),
    }
    assert!(matches!(ScraperCommands::or_default(Some(ScraperCommands::List)), ScraperCommands::List));
    assert_eq!(source_label(&None), "all sources");
    assert_eq!(source_label(&Some(String::new())), "all sources");
    assert_eq!(source_label(&Some("argentina/clarin".to_string())), "argentina/clarin");
}

#[test]
fn the_model_created_is_deepseek_with_the_configured_key() {
    let config = InferenceConfig { api_key: Some("k".to_string()), model_name: None };
    let model = create_model(Some(config)).ok().unwrap();
    assert_eq!(model.name(), "DeepSeek");
    assert_eq!(model.debug_text(), "DeepSeekModel { api_key: Some(\"<redacted>\") }");
    let config = InferenceConfig { api_key: None, model_name: Some("deepseek".to_string()) };
    assert_eq!(create_model(Some(config)).ok().unwrap().debug_text(), "DeepSeekModel { api_key: None }");
    assert_eq!(create_model(None).ok().unwrap().debug_text(), "DeepSeekModel { api_key: None }");
}
