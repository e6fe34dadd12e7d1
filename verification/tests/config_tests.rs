use predict_otron::config::{ServerConfig, ServerMode, Services};

fn config_from_json(json: &str) -> ServerConfig {
    let v: serde_json::Value = serde_json::from_str(json).unwrap();
    let mut config = ServerConfig::default();
    if let Some(host) = v.get("serverHost").and_then(|h| h.as_str()) {
        config.server_host = host.to_string();
    }
    if let Some(port) = v.get("serverPort").and_then(|p| p.as_u64()) {
        config.server_port = port as u16;
    }
    match v.get("serverMode").and_then(|m| m.as_str()) {
        Some("HighAvailability") => config.server_mode = ServerMode::HighAvailability,
        _ => config.server_mode = ServerMode::Standalone,
    }
    match v.get("services") {
        Some(s) => {
            config.services = Some(Services {
                inference_url: s
                    .get("inference_url")
                    .and_then(|u| u.as_str())
                    .map(|u| u.to_string()),
                embeddings_url: s
                    .get("embeddings_url")
                    .and_then(|u| u.as_str())
                    .map(|u| u.to_string()),
            });
        }
        None => config.services = None,
    }
    config
}

#[test]
fn test_default_config() {
    let config = ServerConfig::default();
    assert_eq!(config.server_mode, ServerMode::Standalone);
    assert!(!config.is_high_availability().unwrap());
}

#[test]
fn test_high_availability_config() {
    let config_json = r#"{
            "serverMode": "HighAvailability",
            "services": {
                "inference_url": "http://inference-service:8080",
                "embeddings_url": "http://embeddings-service:8080"
            }
        }"#;

    let config = config_from_json(config_json);
    assert_eq!(config.server_mode, ServerMode::HighAvailability);
    assert!(config.is_high_availability().unwrap());
    assert_eq!(
        config.inference_url().unwrap(),
        "http://inference-service:8080"
    );
    assert_eq!(
        config.embeddings_url().unwrap(),
        "http://embeddings-service:8080"
    );
}

#[test]
fn test_local_mode_config() {
    let config_json = r#"{
            "serverMode": "Standalone"
        }"#;

    let config = config_from_json(config_json);
    assert_eq!(config.server_mode, ServerMode::Standalone);
    assert!(!config.is_high_availability().unwrap());
}

#[test]
fn test_custom_urls() {
    let config_json = r#"{
            "serverMode": "HighAvailability",
            "services": {
                "inference_url": "http://custom-inference:9000",
                "embeddings_url": "http://custom-embeddings:9001"
            }
        }"#;

    let config = config_from_json(config_json);
    assert_eq!(
        config.inference_url().unwrap(),
        "http://custom-inference:9000"
    );
    assert_eq!(
        config.embeddings_url().unwrap(),
        "http://custom-embeddings:9001"
    );
}

#[test]
fn test_minimal_high_availability_config_error() {
    let config_json = r#"{"serverMode": "HighAvailability"}"#;
    let config = config_from_json(config_json);

    let is_high_availability = config.is_high_availability();

    assert!(is_high_availability.is_err());
}

#[test]
fn standalone_never_consults_services() {
    let with_urls = ServerConfig {
        server_host: "127.0.0.1".to_string(),
        server_port: 8080,
        server_mode: ServerMode::Standalone,
        services: Some(Services {
            inference_url: Some("http://a:1".to_string()),
            embeddings_url: None,
        }),
    };
    let without = ServerConfig {
        server_host: "127.0.0.1".to_string(),
        server_port: 8080,
        server_mode: ServerMode::Standalone,
        services: None,
    };
    assert_eq!(with_urls.is_high_availability().unwrap(), false);
    assert_eq!(without.is_high_availability().unwrap(), false);
}

#[test]
fn ha_gate_requires_both_urls() {
    let one_url = ServerConfig {
        server_host: "0.0.0.0".to_string(),
        server_port: 8080,
        server_mode: ServerMode::HighAvailability,
        services: Some(Services {
            inference_url: Some("http://a:1".to_string()),
            embeddings_url: None,
        }),
    };
    assert!(one_url.is_high_availability().is_err());
}
