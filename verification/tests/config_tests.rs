use ofi_engine_rust::config::{
    log_level_of, select_config_path, Credentials, LogLevel, OFIConfig, OFITomlConfig,
    StrategyTomlConfig, TomlConfig, CONFIG_PATHS, MAX_LOOKBACK_MS,
};
use ofi_engine_rust::decimal::Decimal;
use ofi_engine_rust::signals::StrategyParams;
use ofi_engine_rust::supervisor::{max_sessions, DEFAULT_MAX_SESSIONS};

fn value(text: &str) -> Decimal {
    Decimal::parse(text).expect("a decimal numeral")
}

fn valid() -> OFIConfig {
    OFIConfig {
        api_key: "key".to_string(),
        secret_key: "secret".to_string(),
        passphrase: "pass".to_string(),
        websocket_url: "wss://ws.example.com/v2/ws/public".to_string(),
        default_imbalance_threshold: value("3"),
        default_absorption_threshold: value("1.5"),
        default_delta_threshold: value("50000"),
        default_lookback_period_ms: 60_000,
        analysis_duration_limit_ms: 3_600_000,
        analysis_duration_per_cycle_ms: 30_000,
        trade_storage_limit: 1_000,
        strong_signal_confidence: value("0.9"),
        reversal_signal_confidence: value("0.7"),
        exhaustion_signal_confidence: value("1"),
        market_condition_adaptation: false,
        max_concurrent_websocket_connections: None,
    }
}

fn broken(change: fn(&mut OFIConfig)) -> Result<(), String> {
    let mut config = valid();
    change(&mut config);
    config.validate()
}

fn err(text: &str) -> Result<(), String> {
    Err(text.to_string())
}

#[test]
fn a_complete_configuration_is_valid() {
    assert_eq!(valid().validate(), Ok(()));
    assert_eq!(broken(|c| c.default_lookback_period_ms = MAX_LOOKBACK_MS), Ok(()));
    assert_eq!(broken(|c| c.analysis_duration_per_cycle_ms = c.analysis_duration_limit_ms), Ok(()));
    assert_eq!(broken(|c| c.market_condition_adaptation = true), Ok(()));
}

#[test]
fn validation_names_the_missing_credential() {
    assert_eq!(broken(|c| c.api_key.clear()), err("API key is required"));
    assert_eq!(broken(|c| c.secret_key.clear()), err("Secret key is required"));
    assert_eq!(broken(|c| c.passphrase.clear()), err("Passphrase is required"));
    assert_eq!(broken(|c| c.websocket_url.clear()), err("WebSocket URL is required"));
}

#[test]
fn validation_wants_positive_thresholds() {
    assert_eq!(
        broken(|c| c.default_imbalance_threshold = Decimal::zero()),
        err("Imbalance threshold must be positive")
    );
    assert_eq!(
        broken(|c| c.default_absorption_threshold = Decimal::zero()),
        err("Absorption threshold must be positive")
    );
    assert_eq!(broken(|c| c.default_delta_threshold = Decimal::zero()), err("Delta threshold must be positive"));
}

#[test]
fn validation_bounds_the_periods() {
    assert_eq!(broken(|c| c.default_lookback_period_ms = 0), err("Lookback period must be positive"));
    assert_eq!(
        broken(|c| c.default_lookback_period_ms = MAX_LOOKBACK_MS + 1),
        err("Lookback period must not exceed 5 minutes")
    );
    assert_eq!(
        broken(|c| c.analysis_duration_limit_ms = 0),
        err("Analysis duration limit must be positive")
    );
    assert_eq!(
        broken(|c| c.analysis_duration_per_cycle_ms = 0),
        err("Analysis duration per cycle must be positive and not exceed the limit of 3600000ms")
    );
    assert_eq!(
        broken(|c| {
            c.analysis_duration_limit_ms = 500;
            c.analysis_duration_per_cycle_ms = 501;
        }),
        err("Analysis duration per cycle must be positive and not exceed the limit of 500ms")
    );
    assert_eq!(broken(|c| c.trade_storage_limit = 0), err("Trade storage limit must be positive"));
}

#[test]
fn validation_keeps_confidences_between_zero_and_one() {
    assert_eq!(
        broken(|c| c.strong_signal_confidence = Decimal::zero()),
        err("Strong signal confidence must be between 0 and 1")
    );
    assert_eq!(
        broken(|c| c.strong_signal_confidence = Decimal::parse("1.00000001").unwrap()),
        err("Strong signal confidence must be between 0 and 1")
    );
    assert_eq!(
        broken(|c| c.reversal_signal_confidence = Decimal::parse("2").unwrap()),
        err("Reversal signal confidence must be between 0 and 1")
    );
    assert_eq!(
        broken(|c| c.exhaustion_signal_confidence = Decimal::zero()),
        err("Exhaustion signal confidence must be between 0 and 1")
    );
    assert_eq!(broken(|c| c.strong_signal_confidence = Decimal::parse("0.00000001").unwrap()), Ok(()));
}

#[test]
fn validation_reports_the_first_broken_rule() {
    assert_eq!(OFIConfig::default().validate(), err("API key is required"));
    assert_eq!(
        broken(|c| {
            c.passphrase.clear();
            c.trade_storage_limit = 0;
        }),
        err("Passphrase is required")
    );
}

fn full_table() -> OFITomlConfig {
    OFITomlConfig {
        websocket_url: Some("wss://ws.example.com".to_string()),
        default_imbalance_threshold: Some(value("3")),
        default_absorption_threshold: Some(value("1.5")),
        default_delta_threshold: Some(value("50000")),
        default_lookback_period_ms: Some(60_000),
        analysis_duration_limit_ms: Some(3_600_000),
        analysis_duration_per_cycle_ms: Some(30_000),
        trade_storage_limit: Some(1_000),
        strong_signal_confidence: Some(value("0.9")),
        reversal_signal_confidence: Some(value("0.7")),
        exhaustion_signal_confidence: Some(value("0.6")),
        market_condition_adaptation: Some(true),
        max_concurrent_websocket_connections: Some(8),
    }
}

fn no_credentials() -> Credentials {
    Credentials { api_key: None, secret_key: None, passphrase: None }
}

fn assemble(table: Option<OFITomlConfig>, strategy: Option<StrategyTomlConfig>) -> Result<OFIConfig, String> {
    OFIConfig::from_toml_values(&TomlConfig { ofi_config: table, strategy_config: strategy }, &no_credentials())
}

#[test]
fn a_full_table_gives_its_values() {
    let credentials = Credentials {
        api_key: Some("k".to_string()),
        secret_key: Some("s".to_string()),
        passphrase: None,
    };
    let toml = TomlConfig { ofi_config: Some(full_table()), strategy_config: None };
    let config = OFIConfig::from_toml_values(&toml, &credentials).unwrap();
    assert_eq!(config.api_key, "k");
    assert_eq!(config.secret_key, "s");
    assert_eq!(config.passphrase, "");
    assert_eq!(config.websocket_url, "wss://ws.example.com");
    assert_eq!(config.default_imbalance_threshold, value("3"));
    assert_eq!(config.default_absorption_threshold, value("1.5"));
    assert_eq!(config.default_delta_threshold, value("50000"));
    assert_eq!(config.default_lookback_period_ms, 60_000);
    assert_eq!(config.analysis_duration_limit_ms, 3_600_000);
    assert_eq!(config.analysis_duration_per_cycle_ms, 30_000);
    assert_eq!(config.trade_storage_limit, 1_000);
    assert_eq!(config.strong_signal_confidence, value("0.9"));
    assert_eq!(config.reversal_signal_confidence, value("0.7"));
    assert_eq!(config.exhaustion_signal_confidence, value("0.6"));
    assert!(config.market_condition_adaptation);
    assert_eq!(config.max_concurrent_websocket_connections, Some(8));
    assert_eq!(max_sessions(&config), 8);
}

#[test]
fn the_strategy_table_fills_in_for_a_missing_imbalance_threshold() {
    let mut table = full_table();
    table.default_imbalance_threshold = None;
    table.default_lookback_period_ms = Some(1_000);
    let strategy = StrategyTomlConfig {
        imbalance_threshold: Some(value("4")),
        absorption_threshold: None,
        delta_threshold: Some(value("7")),
        lookback_period_ms: Some(2_000),
    };
    let config = assemble(Some(table), Some(strategy)).unwrap();
    assert_eq!(config.default_imbalance_threshold, value("4"));
    assert_eq!(config.default_absorption_threshold, value("1.5"));
    assert_eq!(config.default_delta_threshold, value("7"));
    assert_eq!(config.default_lookback_period_ms, 2_000);
}

#[test]
fn the_strategy_table_is_not_read_where_the_threshold_is_set() {
    let strategy = StrategyTomlConfig {
        imbalance_threshold: Some(value("4")),
        absorption_threshold: Some(value("4")),
        delta_threshold: Some(value("4")),
        lookback_period_ms: Some(4),
    };
    let config = assemble(Some(full_table()), Some(strategy)).unwrap();
    assert_eq!(config.default_imbalance_threshold, value("3"));
    assert_eq!(config.default_delta_threshold, value("50000"));
    assert_eq!(config.default_lookback_period_ms, 60_000);
}

fn lacking(change: fn(&mut OFITomlConfig)) -> String {
    let mut table = full_table();
    change(&mut table);
    assemble(Some(table), None).unwrap_err()
}

#[test]
fn every_required_key_must_be_provided() {
    assert_eq!(assemble(None, None).unwrap_err(), "websocket_url must be provided in config.toml");
    assert_eq!(lacking(|t| t.websocket_url = None), "websocket_url must be provided in config.toml");
    assert_eq!(
        lacking(|t| t.websocket_url = Some(String::new())),
        "websocket_url must be provided in config.toml"
    );
    assert_eq!(
        lacking(|t| t.default_imbalance_threshold = None),
        "default_imbalance_threshold must be provided in config.toml"
    );
    assert_eq!(
        lacking(|t| t.default_absorption_threshold = None),
        "default_absorption_threshold must be provided in config.toml"
    );
    assert_eq!(
        lacking(|t| t.default_delta_threshold = Some(Decimal::zero())),
        "default_delta_threshold must be provided in config.toml"
    );
    assert_eq!(
        lacking(|t| t.default_lookback_period_ms = None),
        "default_lookback_period_ms must be provided in config.toml"
    );
    assert_eq!(
        lacking(|t| t.analysis_duration_limit_ms = None),
        "analysis_duration_limit_ms must be provided in config.toml"
    );
    assert_eq!(
        lacking(|t| t.analysis_duration_per_cycle_ms = None),
        "analysis_duration_per_cycle_ms must be provided in config.toml"
    );
    assert_eq!(lacking(|t| t.trade_storage_limit = None), "trade_storage_limit must be provided in config.toml");
    assert_eq!(
        lacking(|t| t.strong_signal_confidence = None),
        "strong_signal_confidence must be provided in config.toml"
    );
    assert_eq!(
        lacking(|t| t.reversal_signal_confidence = None),
        "reversal_signal_confidence must be provided in config.toml"
    );
    assert_eq!(
        lacking(|t| t.exhaustion_signal_confidence = None),
        "exhaustion_signal_confidence must be provided in config.toml"
    );
}

#[test]
fn optional_keys_may_be_left_out() {
    let mut table = full_table();
    table.market_condition_adaptation = None;
    table.max_concurrent_websocket_connections = None;
    let config = assemble(Some(table), None).unwrap();
    assert!(!config.market_condition_adaptation);
    assert_eq!(config.max_concurrent_websocket_connections, None);
    assert_eq!(max_sessions(&config), DEFAULT_MAX_SESSIONS);
    assert_eq!(max_sessions(&config), 20);
}

#[test]
fn default_configuration_is_blank() {
    let config = OFIConfig::default();
    assert_eq!(config.api_key, "");
    assert_eq!(config.websocket_url, "");
    assert_eq!(config.default_imbalance_threshold, Decimal::zero());
    assert_eq!(config.trade_storage_limit, 0);
    assert_eq!(config.max_concurrent_websocket_connections, None);
    assert!(!config.market_condition_adaptation);
}

#[test]
fn update_config_replaces_the_given_credentials() {
    let mut config = valid();
    config.update_config(Some("new".to_string()), None, Some(String::new()));
    assert_eq!(config.api_key, "new");
    assert_eq!(config.secret_key, "secret");
    assert_eq!(config.passphrase, "");
    assert_eq!(config.websocket_url, "wss://ws.example.com/v2/ws/public");
}

#[test]
fn status_says_which_credentials_are_set() {
    assert_eq!(valid().get_config_status(), "API Key: SET, Secret Key: SET, Passphrase: SET");
    let mut config = valid();
    config.secret_key.clear();
    assert_eq!(config.get_config_status(), "API Key: SET, Secret Key: NOT SET, Passphrase: SET");
    assert_eq!(
        OFIConfig::default().get_config_status(),
        "API Key: NOT SET, Secret Key: NOT SET, Passphrase: NOT SET"
    );
}

#[test]
fn strategy_params_come_from_the_defaults() {
    let mut config = valid();
    config.market_condition_adaptation = true;
    assert_eq!(
        config.strategy_params(),
        StrategyParams {
            imbalance_threshold: value("3"),
            absorption_threshold: value("1.5"),
            delta_threshold: value("50000"),
            lookback_period_ms: 60_000,
            market_condition_multiplier: Decimal::one(),
        }
    );
    assert_eq!(config.market_condition_multiplier(), Decimal::one());
}

#[test]
fn config_clone_keeps_every_field() {
    let config = valid();
    let copy = config.clone();
    assert_eq!(copy.api_key, config.api_key);
    assert_eq!(copy.websocket_url, config.websocket_url);
    assert_eq!(copy.default_delta_threshold, config.default_delta_threshold);
    assert_eq!(copy.trade_storage_limit, config.trade_storage_limit);
    assert_eq!(copy.validate(), Ok(()));
}

#[test]
fn the_first_place_with_a_file_is_chosen() {
    assert_eq!(select_config_path(&[true, true, true]), Ok(0));
    assert_eq!(select_config_path(&[false, true, true]), Ok(1));
    assert_eq!(select_config_path(&[false, false, true]), Ok(2));
    assert_eq!(select_config_path(&[true, false, false]), Ok(0));
    let message = select_config_path(&[false, false, false]).unwrap_err();
    assert!(message.starts_with("config.toml file is required"));
    for path in CONFIG_PATHS.iter() {
        assert!(message.contains(path));
    }
    assert_eq!(CONFIG_PATHS[0], "config/config.toml");
}

#[test]
fn log_levels_by_name() {
    assert_eq!(log_level_of(Some("debug")), LogLevel::Debug);
    assert_eq!(log_level_of(Some("DEBUG")), LogLevel::Debug);
    assert_eq!(log_level_of(Some("info")), LogLevel::Info);
    assert_eq!(log_level_of(Some("INFO")), LogLevel::Info);
    assert_eq!(log_level_of(Some("warn")), LogLevel::Warn);
    assert_eq!(log_level_of(Some("WARN")), LogLevel::Warn);
    assert_eq!(log_level_of(Some("error")), LogLevel::Error);
    assert_eq!(log_level_of(Some("ERROR")), LogLevel::Error);
    assert_eq!(log_level_of(Some("Debug")), LogLevel::Info);
    assert_eq!(log_level_of(Some("trace")), LogLevel::Info);
    assert_eq!(log_level_of(Some("")), LogLevel::Info);
    assert_eq!(log_level_of(None), LogLevel::Info);
}
