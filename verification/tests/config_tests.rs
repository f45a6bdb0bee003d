use ollama_gateway::config::{parse_u16, preload_enabled, BackendEnv, Config, GatewayEnv};

fn no_backend_env() -> BackendEnv {
    BackendEnv { command: None, host: None, port: None }
}

fn empty_env() -> GatewayEnv {
    GatewayEnv {
        api_host: None,
        api_port: None,
        ollama_url: None,
        model_name: None,
        preload: None,
        backend: no_backend_env(),
    }
}

#[test]
fn parse_u16_plain() {
    assert_eq!(parse_u16(b"80"), Some(80));
    assert_eq!(parse_u16(b"0"), Some(0));
    assert_eq!(parse_u16(b"7103"), Some(7103));
    assert_eq!(parse_u16(b"65535"), Some(65535));
}

#[test]
fn parse_u16_plus_and_zeros() {
    assert_eq!(parse_u16(b"+80"), Some(80));
    assert_eq!(parse_u16(b"0080"), Some(80));
    assert_eq!(parse_u16(b"+0"), Some(0));
}

#[test]
fn parse_u16_rejects() {
    assert_eq!(parse_u16(b""), None);
    assert_eq!(parse_u16(b"+"), None);
    assert_eq!(parse_u16(b"-1"), None);
    assert_eq!(parse_u16(b"12a"), None);
    assert_eq!(parse_u16(b" 80"), None);
    assert_eq!(parse_u16(b"65536"), None);
    assert_eq!(parse_u16(b"99999999999999999999"), None);
}

#[test]
fn parse_u16_matches_std() {
    let cases: &[&str] = &["", "+", "80", "+80", "0080", "65535", "65536", "12a", "-1", "007"];
    for c in cases {
        assert_eq!(parse_u16(c.as_bytes()), c.parse::<u16>().ok(), "case {:?}", c);
    }
}

#[test]
fn preload_flag_spellings() {
    assert!(preload_enabled(b"1"));
    assert!(preload_enabled(b"true"));
    assert!(preload_enabled(b"TRUE"));
    assert!(preload_enabled(b"TrUe"));
    assert!(!preload_enabled(b"false"));
    assert!(!preload_enabled(b"0"));
    assert!(!preload_enabled(b"tru"));
    assert!(!preload_enabled(b"truee"));
    assert!(!preload_enabled(b"trux"));
    assert!(!preload_enabled(b""));
    assert!(!preload_enabled(b"11"));
}

#[test]
fn load_defaults() {
    let cfg = Config::load(empty_env());
    assert_eq!(cfg.api_host, "0.0.0.0");
    assert_eq!(cfg.api_port, 7103);
    assert_eq!(cfg.ollama_url, "http://localhost:11434");
    assert_eq!(cfg.model_name, "gemma3:27b");
    assert!(cfg.preload);
    assert_eq!(cfg.backend.command, "ollama");
    assert_eq!(cfg.backend.args, vec!["serve".to_string()]);
    assert_eq!(cfg.backend.host, "127.0.0.1");
    assert_eq!(cfg.backend.port, 11434);
}

#[test]
fn load_overrides() {
    let env = GatewayEnv {
        api_host: Some("127.0.0.1".to_string()),
        api_port: Some("8080".to_string()),
        ollama_url: Some("http://10.0.0.2:11434".to_string()),
        model_name: Some("llama3:8b".to_string()),
        preload: Some("false".to_string()),
        backend: BackendEnv {
            command: None,
            host: None,
            port: Some("11500".to_string()),
        },
    };
    let cfg = Config::load(env);
    assert_eq!(cfg.api_host, "127.0.0.1");
    assert_eq!(cfg.api_port, 8080);
    assert_eq!(cfg.ollama_url, "http://10.0.0.2:11434");
    assert_eq!(cfg.model_name, "llama3:8b");
    assert!(!cfg.preload);
    assert_eq!(cfg.backend.port, 11500);
}

#[test]
fn load_bad_port_falls_back() {
    let mut env = empty_env();
    env.api_port = Some("not-a-port".to_string());
    env.backend.port = Some("70000".to_string());
    let cfg = Config::load(env);
    assert_eq!(cfg.api_port, 7103);
    assert_eq!(cfg.backend.port, 11434);
}
