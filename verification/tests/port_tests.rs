use ollama_supervisor::port::{
    get_ollama_api_url, get_ollama_base_url, get_socket_address, PortConfig, DEFAULT_OLLAMA_PORT,
};

#[test]
fn default_port_and_urls() {
    let config = PortConfig::new();
    assert_eq!(config.port(), 11434);
    assert_eq!(DEFAULT_OLLAMA_PORT, 11434);
    assert_eq!(get_ollama_base_url(&config), "http://localhost:11434");
    assert_eq!(get_ollama_api_url(&config, "tags"), "http://localhost:11434/api/tags");
    assert_eq!(get_ollama_api_url(&config, "generate"), "http://localhost:11434/api/generate");
    assert_eq!(get_socket_address(&config), "127.0.0.1:11434");
}

#[test]
fn port_80_is_rejected_and_11500_reaches_the_base_url() {
    let mut config = PortConfig::new();
    assert_eq!(
        config.set_port(80),
        Err("Port must be between 1024 and 65535".to_string())
    );
    assert_eq!(config.port(), 11434);
    assert_eq!(get_ollama_base_url(&config), "http://localhost:11434");
    assert_eq!(config.set_port(11500), Ok("Ollama port set to 11500".to_string()));
    assert_eq!(config.port(), 11500);
    assert_eq!(get_ollama_base_url(&config), "http://localhost:11500");
    assert_eq!(get_ollama_api_url(&config, "tags"), "http://localhost:11500/api/tags");
}

#[test]
fn port_bounds() {
    let mut config = PortConfig::new();
    assert!(config.set_port(1023).is_err());
    assert!(config.set_port(0).is_err());
    assert!(config.set_port(1024).is_ok());
    assert_eq!(config.port(), 1024);
    assert!(config.set_port(65535).is_ok());
    assert_eq!(config.port(), 65535);
    assert!(config.set_port(1).is_err());
    assert_eq!(config.port(), 65535);
}

#[test]
fn override_text_selects_the_port() {
    assert_eq!(PortConfig::from_override(None).port(), 11434);
    assert_eq!(PortConfig::from_override(Some("11500")).port(), 11500);
    assert_eq!(PortConfig::from_override(Some("80")).port(), 80);
    assert_eq!(PortConfig::from_override(Some("+8080")).port(), 8080);
    assert_eq!(PortConfig::from_override(Some("")).port(), 11434);
    assert_eq!(PortConfig::from_override(Some("70000")).port(), 11434);
    assert_eq!(PortConfig::from_override(Some("port")).port(), 11434);
    assert_eq!(PortConfig::from_override(Some(" 8080")).port(), 11434);
}
