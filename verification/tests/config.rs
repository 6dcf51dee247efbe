use recommend_gateway::config::Config;

#[test]
fn missing_settings_get_their_defaults() {
    let config = Config::from_settings(None, None);
    assert_eq!(config.ai_service_url, "http://localhost:8001");
    assert_eq!(config.port, "3000");
}

#[test]
fn given_settings_are_taken_as_they_are() {
    let config = Config::from_settings(
        Some("https://ai.example.org/v2/".to_string()),
        Some("8080".to_string()),
    );
    assert_eq!(config.ai_service_url, "https://ai.example.org/v2/");
    assert_eq!(config.port, "8080");
}

#[test]
fn each_setting_falls_back_on_its_own() {
    let only_url = Config::from_settings(Some("http://ai:9000".to_string()), None);
    assert_eq!(only_url.ai_service_url, "http://ai:9000");
    assert_eq!(only_url.port, "3000");
    let only_port = Config::from_settings(None, Some("4000".to_string()));
    assert_eq!(only_port.ai_service_url, "http://localhost:8001");
    assert_eq!(only_port.port, "4000");
}

#[test]
fn an_empty_setting_is_not_a_missing_one() {
    let config = Config::from_settings(Some(String::new()), Some(String::new()));
    assert_eq!(config.ai_service_url, "");
    assert_eq!(config.port, "");
}

#[test]
fn the_default_listen_address_is_every_interface_at_3000() {
    assert_eq!(Config::from_settings(None, None).listen_address(), "0.0.0.0:3000");
}

#[test]
fn the_listen_address_carries_the_configured_port() {
    let config = Config::from_settings(None, Some("8080".to_string()));
    assert_eq!(config.listen_address(), "0.0.0.0:8080");
}

#[test]
fn the_listen_address_does_not_judge_the_port() {
    let config = Config::from_settings(None, Some("not-a-port".to_string()));
    assert_eq!(config.listen_address(), "0.0.0.0:not-a-port");
}
