use chaseai::dialogs::ConfigFormat;

#[test]
fn test_config_format_extension() {
    assert_eq!(ConfigFormat::Json.extension(), "json");
    assert_eq!(ConfigFormat::Yaml.extension(), "yaml");
    assert_eq!(ConfigFormat::Markdown.extension(), "md");
}

#[test]
fn test_config_format_name() {
    assert_eq!(ConfigFormat::Json.name(), "JSON");
    assert_eq!(ConfigFormat::Yaml.name(), "YAML");
    assert_eq!(ConfigFormat::Markdown.name(), "Markdown");
}

#[test]
fn test_agent_rule_format_extension_and_name() {
    assert_eq!(ConfigFormat::AgentRule.extension(), "md");
    assert_eq!(ConfigFormat::AgentRule.name(), "Agent Rule");
}
