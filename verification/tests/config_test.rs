use stock_monitoring_bot::config::Config;

#[test]
fn parameter_names_are_namespaced() {
    let config = Config::new();
    assert_eq!(config.project_name, "stock-monitoring-bot");
    assert_eq!(config.environment, "dev");
    assert_eq!(config.get_parameter("some-key"), "/stock-monitoring-bot/dev/some-key");
    assert_eq!(config.get_discord_public_key(), "/stock-monitoring-bot/dev/discord-public-key");
    assert_eq!(config.get_discord_webhook_url(), "/stock-monitoring-bot/dev/discord-webhook-url");
    assert_eq!(
        config.get_alpha_vantage_api_key(),
        "/stock-monitoring-bot/dev/alpha-vantage-api-key"
    );
}

#[test]
fn parameter_names_follow_the_fields() {
    let config = Config { project_name: "p".to_string(), environment: "prod".to_string() };
    assert_eq!(config.get_parameter("k"), "/p/prod/k");
}
