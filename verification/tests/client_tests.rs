use detrix_testing::client_tests::config::{ClientLanguage, ClientTestConfig, EnvVars};

#[test]
fn test_python_config() {
    let config = ClientTestConfig::python();
    assert_eq!(config.language, ClientLanguage::Python);
    assert!(config.fixture_path.contains("trade_bot_forever"));
    assert!(config.env_vars.contains_key("DETRIX_CLIENT_ENABLED"));
}

#[test]
fn test_build_env_vars() {
    let config = ClientTestConfig::python();
    let env = config.build_env_vars("http://127.0.0.1:8090", 9000);

    assert_eq!(env.get("DETRIX_CLIENT_ENABLED"), Some("1"));
    assert_eq!(env.get("DETRIX_DAEMON_URL"), Some("http://127.0.0.1:8090"));
    assert_eq!(env.get("DETRIX_CONTROL_PORT"), Some("9000"));
}

#[test]
fn test_build_spawn_args() {
    let config = ClientTestConfig::python();
    let (cmd, args) =
        config.build_spawn_args("/workspace/fixtures/python/trade_bot_forever.py");

    assert_eq!(cmd, "uv");
    assert_eq!(args.len(), 3);
    assert_eq!(args[0], "run");
    assert_eq!(args[1], "python");
    assert!(args[2].contains("trade_bot_forever.py"));
}

#[test]
fn test_go_config() {
    let config = ClientTestConfig::go();
    assert_eq!(config.language, ClientLanguage::Go);
    assert!(config.env_vars.contains_key("DETRIX_CLIENT_ENABLED"));
}

#[test]
fn env_vars_keep_one_value_each() {
    let mut env = EnvVars::new();
    env.insert("A", "1");
    env.insert("B", "2");
    env.insert("A", "3");
    assert_eq!(env.entries.len(), 2);
    assert_eq!(env.get("A"), Some("3"));
    assert_eq!(env.get("B"), Some("2"));
    assert_eq!(env.get("C"), None);
}
