//! Engine configuration: how it is put together from the values of a
//! configuration file and the credentials of the environment, and how it is
//! validated.

use vstd::prelude::*;
use crate::decimal::{Decimal, SCALE};
use crate::signals::StrategyParams;
use crate::text::{decimal_text, render_u64, text_eq};

verus! {

/// Longest lookback period that a configuration may ask for, in
/// milliseconds: five minutes.
pub const MAX_LOOKBACK_MS: u64 = 300_000;

/// Configuration of the engine. Credentials come from the environment, all
/// other values from the configuration file.
#[derive(Debug)]
pub struct OFIConfig {
    pub api_key: String,
    pub secret_key: String,
    pub passphrase: String,
    pub websocket_url: String,
    pub default_imbalance_threshold: Decimal,
    pub default_absorption_threshold: Decimal,
    pub default_delta_threshold: Decimal,
    pub default_lookback_period_ms: u64,
    pub analysis_duration_limit_ms: u64,
    pub analysis_duration_per_cycle_ms: u64,
    pub trade_storage_limit: usize,
    pub strong_signal_confidence: Decimal,
    pub reversal_signal_confidence: Decimal,
    pub exhaustion_signal_confidence: Decimal,
    pub market_condition_adaptation: bool,
    pub max_concurrent_websocket_connections: Option<usize>,
}

/// What an `OFIConfig` holds.
pub struct ConfigView {
    pub api_key: Seq<char>,
    pub secret_key: Seq<char>,
    pub passphrase: Seq<char>,
    pub websocket_url: Seq<char>,
    pub default_imbalance_threshold: Decimal,
    pub default_absorption_threshold: Decimal,
    pub default_delta_threshold: Decimal,
    pub default_lookback_period_ms: u64,
    pub analysis_duration_limit_ms: u64,
    pub analysis_duration_per_cycle_ms: u64,
    pub trade_storage_limit: usize,
    pub strong_signal_confidence: Decimal,
    pub reversal_signal_confidence: Decimal,
    pub exhaustion_signal_confidence: Decimal,
    pub market_condition_adaptation: bool,
    pub max_concurrent_websocket_connections: Option<usize>,
}

impl View for OFIConfig {
    type V = ConfigView;

    open spec fn view(&self) -> ConfigView {
        ConfigView {
            api_key: self.api_key@,
            secret_key: self.secret_key@,
            passphrase: self.passphrase@,
            websocket_url: self.websocket_url@,
            default_imbalance_threshold: self.default_imbalance_threshold,
            default_absorption_threshold: self.default_absorption_threshold,
            default_delta_threshold: self.default_delta_threshold,
            default_lookback_period_ms: self.default_lookback_period_ms,
            analysis_duration_limit_ms: self.analysis_duration_limit_ms,
            analysis_duration_per_cycle_ms: self.analysis_duration_per_cycle_ms,
            trade_storage_limit: self.trade_storage_limit,
            strong_signal_confidence: self.strong_signal_confidence,
            reversal_signal_confidence: self.reversal_signal_confidence,
            exhaustion_signal_confidence: self.exhaustion_signal_confidence,
            market_condition_adaptation: self.market_condition_adaptation,
            max_concurrent_websocket_connections: self.max_concurrent_websocket_connections,
        }
    }
}

/// The configuration in which nothing has been provided yet.
pub open spec fn blank_config() -> ConfigView {
    ConfigView {
        api_key: Seq::empty(),
        secret_key: Seq::empty(),
        passphrase: Seq::empty(),
        websocket_url: Seq::empty(),
        default_imbalance_threshold: Decimal::spec_zero(),
        default_absorption_threshold: Decimal::spec_zero(),
        default_delta_threshold: Decimal::spec_zero(),
        default_lookback_period_ms: 0,
        analysis_duration_limit_ms: 0,
        analysis_duration_per_cycle_ms: 0,
        trade_storage_limit: 0,
        strong_signal_confidence: Decimal::spec_zero(),
        reversal_signal_confidence: Decimal::spec_zero(),
        exhaustion_signal_confidence: Decimal::spec_zero(),
        market_condition_adaptation: false,
        max_concurrent_websocket_connections: None,
    }
}

impl Default for OFIConfig {
    fn default() -> (r: Self)
        ensures
            r@ == blank_config(),
    {
        OFIConfig {
            api_key: String::new(),
            secret_key: String::new(),
            passphrase: String::new(),
            websocket_url: String::new(),
            default_imbalance_threshold: Decimal::zero(),
            default_absorption_threshold: Decimal::zero(),
            default_delta_threshold: Decimal::zero(),
            default_lookback_period_ms: 0,
            analysis_duration_limit_ms: 0,
            analysis_duration_per_cycle_ms: 0,
            trade_storage_limit: 0,
            strong_signal_confidence: Decimal::zero(),
            reversal_signal_confidence: Decimal::zero(),
            exhaustion_signal_confidence: Decimal::zero(),
            market_condition_adaptation: false,
            max_concurrent_websocket_connections: None,
        }
    }
}

impl Clone for OFIConfig {
    fn clone(&self) -> (r: Self)
        ensures
            r@ == self@,
    {
        OFIConfig {
            api_key: self.api_key.clone(),
            secret_key: self.secret_key.clone(),
            passphrase: self.passphrase.clone(),
            websocket_url: self.websocket_url.clone(),
            default_imbalance_threshold: self.default_imbalance_threshold,
            default_absorption_threshold: self.default_absorption_threshold,
            default_delta_threshold: self.default_delta_threshold,
            default_lookback_period_ms: self.default_lookback_period_ms,
            analysis_duration_limit_ms: self.analysis_duration_limit_ms,
            analysis_duration_per_cycle_ms: self.analysis_duration_per_cycle_ms,
            trade_storage_limit: self.trade_storage_limit,
            strong_signal_confidence: self.strong_signal_confidence,
            reversal_signal_confidence: self.reversal_signal_confidence,
            exhaustion_signal_confidence: self.exhaustion_signal_confidence,
            market_condition_adaptation: self.market_condition_adaptation,
            max_concurrent_websocket_connections: self.max_concurrent_websocket_connections,
        }
    }
}

/// The `[ofi]` table of a configuration file: each key may be absent.
#[derive(Debug)]
pub struct OFITomlConfig {
    pub websocket_url: Option<String>,
    pub default_imbalance_threshold: Option<Decimal>,
    pub default_absorption_threshold: Option<Decimal>,
    pub default_delta_threshold: Option<Decimal>,
    pub default_lookback_period_ms: Option<u64>,
    pub analysis_duration_limit_ms: Option<u64>,
    pub analysis_duration_per_cycle_ms: Option<u64>,
    pub trade_storage_limit: Option<usize>,
    pub strong_signal_confidence: Option<Decimal>,
    pub reversal_signal_confidence: Option<Decimal>,
    pub exhaustion_signal_confidence: Option<Decimal>,
    pub market_condition_adaptation: Option<bool>,
    pub max_concurrent_websocket_connections: Option<usize>,
}

/// The `[strategy]` table of a configuration file, read where `[ofi]` sets
/// no imbalance threshold.
#[derive(Clone, Copy, Debug)]
pub struct StrategyTomlConfig {
    pub imbalance_threshold: Option<Decimal>,
    pub absorption_threshold: Option<Decimal>,
    pub delta_threshold: Option<Decimal>,
    pub lookback_period_ms: Option<u64>,
}

/// The tables of a configuration file.
#[derive(Debug)]
pub struct TomlConfig {
    pub ofi_config: Option<OFITomlConfig>,
    pub strategy_config: Option<StrategyTomlConfig>,
}

/// The credentials found in the environment: each may be unset.
#[derive(Debug)]
pub struct Credentials {
    pub api_key: Option<String>,
    pub secret_key: Option<String>,
    pub passphrase: Option<String>,
}

/// `given` where there is one, else `kept`.
pub open spec fn or_kept<T>(given: Option<T>, kept: T) -> T {
    match given {
        Some(v) => v,
        None => kept,
    }
}

/// The text `given` where there is one, else `kept`.
pub open spec fn text_or_kept(given: Option<String>, kept: Seq<char>) -> Seq<char> {
    match given {
        Some(v) => v@,
        None => kept,
    }
}

/// The configuration with the keys of an `[ofi]` table laid over it.
pub open spec fn with_ofi(base: ConfigView, table: Option<OFITomlConfig>) -> ConfigView {
    match table {
        None => base,
        Some(t) => ConfigView {
            websocket_url: text_or_kept(t.websocket_url, base.websocket_url),
            default_imbalance_threshold: or_kept(t.default_imbalance_threshold, base.default_imbalance_threshold),
            default_absorption_threshold: or_kept(
                t.default_absorption_threshold,
                base.default_absorption_threshold,
            ),
            default_delta_threshold: or_kept(t.default_delta_threshold, base.default_delta_threshold),
            default_lookback_period_ms: or_kept(t.default_lookback_period_ms, base.default_lookback_period_ms),
            analysis_duration_limit_ms: or_kept(t.analysis_duration_limit_ms, base.analysis_duration_limit_ms),
            analysis_duration_per_cycle_ms: or_kept(
                t.analysis_duration_per_cycle_ms,
                base.analysis_duration_per_cycle_ms,
            ),
            trade_storage_limit: or_kept(t.trade_storage_limit, base.trade_storage_limit),
            strong_signal_confidence: or_kept(t.strong_signal_confidence, base.strong_signal_confidence),
            reversal_signal_confidence: or_kept(t.reversal_signal_confidence, base.reversal_signal_confidence),
            exhaustion_signal_confidence: or_kept(
                t.exhaustion_signal_confidence,
                base.exhaustion_signal_confidence,
            ),
            market_condition_adaptation: or_kept(t.market_condition_adaptation, base.market_condition_adaptation),
            max_concurrent_websocket_connections: match t.max_concurrent_websocket_connections {
                Some(n) => Some(n),
                None => base.max_concurrent_websocket_connections,
            },
            ..base
        },
    }
}

/// The configuration with the keys of a `[strategy]` table laid over it,
/// which happens only while the imbalance threshold is still unset.
pub open spec fn with_strategy(base: ConfigView, table: Option<StrategyTomlConfig>) -> ConfigView {
    match table {
        Some(t) if base.default_imbalance_threshold@ == 0 => ConfigView {
            default_imbalance_threshold: or_kept(t.imbalance_threshold, base.default_imbalance_threshold),
            default_absorption_threshold: or_kept(t.absorption_threshold, base.default_absorption_threshold),
            default_delta_threshold: or_kept(t.delta_threshold, base.default_delta_threshold),
            default_lookback_period_ms: or_kept(t.lookback_period_ms, base.default_lookback_period_ms),
            ..base
        },
        _ => base,
    }
}

/// The configuration with the credentials of the environment laid over it.
pub open spec fn with_credentials(base: ConfigView, credentials: Credentials) -> ConfigView {
    ConfigView {
        api_key: text_or_kept(credentials.api_key, base.api_key),
        secret_key: text_or_kept(credentials.secret_key, base.secret_key),
        passphrase: text_or_kept(credentials.passphrase, base.passphrase),
        ..base
    }
}

/// The configuration that a file and the environment give together.
pub open spec fn assembled(toml_config: TomlConfig, credentials: Credentials) -> ConfigView {
    with_credentials(
        with_strategy(with_ofi(blank_config(), toml_config.ofi_config), toml_config.strategy_config),
        credentials,
    )
}

/// The complaint about the first required key that a configuration still
/// lacks, if it lacks one.
pub open spec fn missing_key(c: ConfigView) -> Option<Seq<char>> {
    if c.websocket_url.len() == 0 {
        Some("websocket_url must be provided in config.toml"@)
    } else if c.default_imbalance_threshold@ == 0 {
        Some("default_imbalance_threshold must be provided in config.toml"@)
    } else if c.default_absorption_threshold@ == 0 {
        Some("default_absorption_threshold must be provided in config.toml"@)
    } else if c.default_delta_threshold@ == 0 {
        Some("default_delta_threshold must be provided in config.toml"@)
    } else if c.default_lookback_period_ms == 0 {
        Some("default_lookback_period_ms must be provided in config.toml"@)
    } else if c.analysis_duration_limit_ms == 0 {
        Some("analysis_duration_limit_ms must be provided in config.toml"@)
    } else if c.analysis_duration_per_cycle_ms == 0 {
        Some("analysis_duration_per_cycle_ms must be provided in config.toml"@)
    } else if c.trade_storage_limit == 0 {
        Some("trade_storage_limit must be provided in config.toml"@)
    } else if c.strong_signal_confidence@ == 0 {
        Some("strong_signal_confidence must be provided in config.toml"@)
    } else if c.reversal_signal_confidence@ == 0 {
        Some("reversal_signal_confidence must be provided in config.toml"@)
    } else if c.exhaustion_signal_confidence@ == 0 {
        Some("exhaustion_signal_confidence must be provided in config.toml"@)
    } else {
        None
    }
}

/// Whether a confidence lies in the half-open interval from zero to one.
pub open spec fn is_confidence(d: Decimal) -> bool {
    0 < d@ <= SCALE
}

/// Whether a configuration is valid: credentials and endpoint are set, the
/// thresholds and limits are positive, the lookback is at most five
/// minutes, a cycle is no longer than the duration limit, and the
/// confidences lie between zero (exclusive) and one (inclusive).
pub open spec fn is_valid_config(c: ConfigView) -> bool {
    &&& c.api_key.len() > 0
    &&& c.secret_key.len() > 0
    &&& c.passphrase.len() > 0
    &&& c.websocket_url.len() > 0
    &&& c.default_imbalance_threshold@ > 0
    &&& c.default_absorption_threshold@ > 0
    &&& c.default_delta_threshold@ > 0
    &&& 0 < c.default_lookback_period_ms <= MAX_LOOKBACK_MS
    &&& c.analysis_duration_limit_ms > 0
    &&& 0 < c.analysis_duration_per_cycle_ms <= c.analysis_duration_limit_ms
    &&& c.trade_storage_limit > 0
    &&& is_confidence(c.strong_signal_confidence)
    &&& is_confidence(c.reversal_signal_confidence)
    &&& is_confidence(c.exhaustion_signal_confidence)
}

/// The complaint about the first rule that a configuration breaks, if it
/// breaks one.
pub open spec fn violation(c: ConfigView) -> Option<Seq<char>> {
    if c.api_key.len() == 0 {
        Some("API key is required"@)
    } else if c.secret_key.len() == 0 {
        Some("Secret key is required"@)
    } else if c.passphrase.len() == 0 {
        Some("Passphrase is required"@)
    } else if c.websocket_url.len() == 0 {
        Some("WebSocket URL is required"@)
    } else if c.default_imbalance_threshold@ == 0 {
        Some("Imbalance threshold must be positive"@)
    } else if c.default_absorption_threshold@ == 0 {
        Some("Absorption threshold must be positive"@)
    } else if c.default_delta_threshold@ == 0 {
        Some("Delta threshold must be positive"@)
    } else if c.default_lookback_period_ms == 0 {
        Some("Lookback period must be positive"@)
    } else if c.default_lookback_period_ms > MAX_LOOKBACK_MS {
        Some("Lookback period must not exceed 5 minutes"@)
    } else if c.analysis_duration_limit_ms == 0 {
        Some("Analysis duration limit must be positive"@)
    } else if c.analysis_duration_per_cycle_ms == 0 || c.analysis_duration_per_cycle_ms
        > c.analysis_duration_limit_ms {
        Some(
            "Analysis duration per cycle must be positive and not exceed the limit of "@ + decimal_text(
                c.analysis_duration_limit_ms as nat,
            ) + "ms"@,
        )
    } else if c.trade_storage_limit == 0 {
        Some("Trade storage limit must be positive"@)
    } else if !is_confidence(c.strong_signal_confidence) {
        Some("Strong signal confidence must be between 0 and 1"@)
    } else if !is_confidence(c.reversal_signal_confidence) {
        Some("Reversal signal confidence must be between 0 and 1"@)
    } else if !is_confidence(c.exhaustion_signal_confidence) {
        Some("Exhaustion signal confidence must be between 0 and 1"@)
    } else {
        None
    }
}

/// A configuration breaks a rule exactly when it is not valid.
pub proof fn lemma_violation_iff_invalid(c: ConfigView)
    ensures
        violation(c).is_none() == is_valid_config(c),
{
}

fn in_unit_interval(d: Decimal) -> (r: bool)
    ensures
        r == is_confidence(d),
{
    d.raw() > 0 && d.raw() <= SCALE
}

fn text_or(given: &Option<String>, kept: String) -> (r: String)
    ensures
        r@ == text_or_kept(*given, kept@),
{
    match given {
        Some(v) => v.clone(),
        None => kept,
    }
}

fn value_or<T: Copy>(given: Option<T>, kept: T) -> (r: T)
    ensures
        r == or_kept(given, kept),
{
    match given {
        Some(v) => v,
        None => kept,
    }
}

impl OFIConfig {
    /// Puts a configuration together from the tables of a configuration
    /// file and the credentials of the environment, and checks that every
    /// required key was provided.
    pub fn from_toml_values(toml_config: &TomlConfig, credentials: &Credentials) -> (r: Result<Self, String>)
        ensures
            match r {
                Ok(config) => config@ == assembled(*toml_config, *credentials) && missing_key(config@).is_none(),
                Err(message) => missing_key(assembled(*toml_config, *credentials)) == Some(message@),
            },
    {
        let mut config = OFIConfig::default();
        match &toml_config.ofi_config {
            Some(t) => {
                config.websocket_url = text_or(&t.websocket_url, config.websocket_url);
                config.default_imbalance_threshold =
                value_or(t.default_imbalance_threshold, config.default_imbalance_threshold);
                config.default_absorption_threshold =
                value_or(t.default_absorption_threshold, config.default_absorption_threshold);
                config.default_delta_threshold =
                value_or(t.default_delta_threshold, config.default_delta_threshold);
                config.default_lookback_period_ms =
                value_or(t.default_lookback_period_ms, config.default_lookback_period_ms);
                config.analysis_duration_limit_ms =
                value_or(t.analysis_duration_limit_ms, config.analysis_duration_limit_ms);
                config.analysis_duration_per_cycle_ms =
                value_or(t.analysis_duration_per_cycle_ms, config.analysis_duration_per_cycle_ms);
                config.trade_storage_limit = value_or(t.trade_storage_limit, config.trade_storage_limit);
                config.strong_signal_confidence =
                value_or(t.strong_signal_confidence, config.strong_signal_confidence);
                config.reversal_signal_confidence =
                value_or(t.reversal_signal_confidence, config.reversal_signal_confidence);
                config.exhaustion_signal_confidence =
                value_or(t.exhaustion_signal_confidence, config.exhaustion_signal_confidence);
                config.market_condition_adaptation =
                value_or(t.market_condition_adaptation, config.market_condition_adaptation);
                if let Some(max_connections) = t.max_concurrent_websocket_connections {
                    config.max_concurrent_websocket_connections = Some(max_connections);
                }
            },
            None => {},
        }
        assert(config@ == with_ofi(blank_config(), toml_config.ofi_config));
        if config.default_imbalance_threshold.raw() == 0 {
            if let Some(t) = &toml_config.strategy_config {
                config.default_imbalance_threshold =
                value_or(t.imbalance_threshold, config.default_imbalance_threshold);
                config.default_absorption_threshold =
                value_or(t.absorption_threshold, config.default_absorption_threshold);
                config.default_delta_threshold = value_or(t.delta_threshold, config.default_delta_threshold);
                config.default_lookback_period_ms =
                value_or(t.lookback_period_ms, config.default_lookback_period_ms);
            }
        }
        config.api_key = text_or(&credentials.api_key, config.api_key);
        config.secret_key = text_or(&credentials.secret_key, config.secret_key);
        config.passphrase = text_or(&credentials.passphrase, config.passphrase);
        assert(config@ == assembled(*toml_config, *credentials));

        if config.websocket_url.as_str().is_empty() {
            return Err(String::from_str("websocket_url must be provided in config.toml"));
        }
        if config.default_imbalance_threshold.raw() == 0 {
            return Err(String::from_str("default_imbalance_threshold must be provided in config.toml"));
        }
        if config.default_absorption_threshold.raw() == 0 {
            return Err(String::from_str("default_absorption_threshold must be provided in config.toml"));
        }
        if config.default_delta_threshold.raw() == 0 {
            return Err(String::from_str("default_delta_threshold must be provided in config.toml"));
        }
        if config.default_lookback_period_ms == 0 {
            return Err(String::from_str("default_lookback_period_ms must be provided in config.toml"));
        }
        if config.analysis_duration_limit_ms == 0 {
            return Err(String::from_str("analysis_duration_limit_ms must be provided in config.toml"));
        }
        if config.analysis_duration_per_cycle_ms == 0 {
            return Err(String::from_str("analysis_duration_per_cycle_ms must be provided in config.toml"));
        }
        if config.trade_storage_limit == 0 {
            return Err(String::from_str("trade_storage_limit must be provided in config.toml"));
        }
        if config.strong_signal_confidence.raw() == 0 {
            return Err(String::from_str("strong_signal_confidence must be provided in config.toml"));
        }
        if config.reversal_signal_confidence.raw() == 0 {
            return Err(String::from_str("reversal_signal_confidence must be provided in config.toml"));
        }
        if config.exhaustion_signal_confidence.raw() == 0 {
            return Err(String::from_str("exhaustion_signal_confidence must be provided in config.toml"));
        }
        Ok(config)
    }

    /// Checks the configuration against its rules, in a fixed order, and
    /// names the first that it breaks.
    pub fn validate(&self) -> (r: Result<(), String>)
        ensures
            r.is_ok() == is_valid_config(self@),
            match r {
                Ok(_) => violation(self@).is_none(),
                Err(message) => violation(self@) == Some(message@),
            },
    {
        if self.api_key.as_str().is_empty() {
            return Err(String::from_str("API key is required"));
        }
        if self.secret_key.as_str().is_empty() {
            return Err(String::from_str("Secret key is required"));
        }
        if self.passphrase.as_str().is_empty() {
            return Err(String::from_str("Passphrase is required"));
        }
        if self.websocket_url.as_str().is_empty() {
            return Err(String::from_str("WebSocket URL is required"));
        }
        if self.default_imbalance_threshold.raw() == 0 {
            return Err(String::from_str("Imbalance threshold must be positive"));
        }
        if self.default_absorption_threshold.raw() == 0 {
            return Err(String::from_str("Absorption threshold must be positive"));
        }
        if self.default_delta_threshold.raw() == 0 {
            return Err(String::from_str("Delta threshold must be positive"));
        }
        if self.default_lookback_period_ms == 0 {
            return Err(String::from_str("Lookback period must be positive"));
        }
        if self.default_lookback_period_ms > MAX_LOOKBACK_MS {
            return Err(String::from_str("Lookback period must not exceed 5 minutes"));
        }
        if self.analysis_duration_limit_ms == 0 {
            return Err(String::from_str("Analysis duration limit must be positive"));
        }
        if self.analysis_duration_per_cycle_ms == 0 || self.analysis_duration_per_cycle_ms
            > self.analysis_duration_limit_ms {
            let mut message = String::from_str(
                "Analysis duration per cycle must be positive and not exceed the limit of ",
            );
            let limit = render_u64(self.analysis_duration_limit_ms);
            message.append(limit.as_str());
            message.append("ms");
            return Err(message);
        }
        if self.trade_storage_limit == 0 {
            return Err(String::from_str("Trade storage limit must be positive"));
        }
        if !in_unit_interval(self.strong_signal_confidence) {
            return Err(String::from_str("Strong signal confidence must be between 0 and 1"));
        }
        if !in_unit_interval(self.reversal_signal_confidence) {
            return Err(String::from_str("Reversal signal confidence must be between 0 and 1"));
        }
        if !in_unit_interval(self.exhaustion_signal_confidence) {
            return Err(String::from_str("Exhaustion signal confidence must be between 0 and 1"));
        }
        Ok(())
    }

    /// Replaces the credentials that are given and keeps the others.
    pub fn update_config(&mut self, api_key: Option<String>, secret_key: Option<String>, passphrase: Option<String>)
        ensures
            final(self)@ == with_credentials(
                old(self)@,
                (Credentials { api_key, secret_key, passphrase }),
            ),
    {
        if let Some(key) = api_key {
            self.api_key = key;
        }
        if let Some(key) = secret_key {
            self.secret_key = key;
        }
        if let Some(pass) = passphrase {
            self.passphrase = pass;
        }
    }

    /// The multiplier of the strategy thresholds under this configuration:
    /// one, whether or not adaptation to market conditions is switched on.
    pub fn market_condition_multiplier(&self) -> (r: Decimal)
        ensures
            r == Decimal::spec_one(),
    {
        Decimal::one()
    }
}

/// `"SET"` for a credential that is not empty, else `"NOT SET"`.
pub open spec fn set_or_not(credential: Seq<char>) -> Seq<char> {
    if credential.len() > 0 {
        "SET"@
    } else {
        "NOT SET"@
    }
}

/// The report of which credentials are set.
pub open spec fn credential_report(c: ConfigView) -> Seq<char> {
    "API Key: "@ + set_or_not(c.api_key) + ", Secret Key: "@ + set_or_not(c.secret_key) + ", Passphrase: "@
        + set_or_not(c.passphrase)
}

fn set_or_not_text(credential: &String) -> (r: &'static str)
    ensures
        r@ == set_or_not(credential@),
{
    if !credential.as_str().is_empty() {
        "SET"
    } else {
        "NOT SET"
    }
}

impl OFIConfig {
    /// Says for each credential whether it is set, without showing it.
    pub fn get_config_status(&self) -> (r: String)
        ensures
            r@ == credential_report(self@),
    {
        let mut r = String::from_str("API Key: ");
        r.append(set_or_not_text(&self.api_key));
        r.append(", Secret Key: ");
        r.append(set_or_not_text(&self.secret_key));
        r.append(", Passphrase: ");
        r.append(set_or_not_text(&self.passphrase));
        r
    }
}

/// The places where the configuration file is looked for, in this order.
pub const CONFIG_PATHS: [&'static str; 3] = [
    "config/config.toml",
    "../config/config.toml",
    "../../config/config.toml",
];

/// The complaint about a configuration file that is in none of its places.
pub open spec fn no_config_file() -> Seq<char> {
    "config.toml file is required and must contain all configuration parameters. Looked in: config/config.toml, ../config/config.toml, ../../config/config.toml"@
}

/// The index in `CONFIG_PATHS` of the configuration file to read, given
/// for each place whether a file is there: the first place that has one.
pub fn select_config_path(present: &[bool; 3]) -> (r: Result<usize, String>)
    ensures
        match r {
            Ok(i) => i < 3 && present[i as int] && forall|k: int| 0 <= k < i ==> !present[k],
            Err(message) => !present[0] && !present[1] && !present[2] && message@ == no_config_file(),
        },
{
    if present[0] {
        Ok(0)
    } else if present[1] {
        Ok(1)
    } else if present[2] {
        Ok(2)
    } else {
        Err(
            String::from_str(
                "config.toml file is required and must contain all configuration parameters. Looked in: config/config.toml, ../config/config.toml, ../../config/config.toml",
            ),
        )
    }
}

impl OFIConfig {
    /// The strategy parameters that a session runs with under this
    /// configuration: its default thresholds and lookback, and a multiplier
    /// of one.
    pub fn strategy_params(&self) -> (r: StrategyParams)
        ensures
            r == (StrategyParams {
                imbalance_threshold: self.default_imbalance_threshold,
                absorption_threshold: self.default_absorption_threshold,
                delta_threshold: self.default_delta_threshold,
                lookback_period_ms: self.default_lookback_period_ms,
                market_condition_multiplier: Decimal::spec_one(),
            }),
    {
        StrategyParams {
            imbalance_threshold: self.default_imbalance_threshold,
            absorption_threshold: self.default_absorption_threshold,
            delta_threshold: self.default_delta_threshold,
            lookback_period_ms: self.default_lookback_period_ms,
            market_condition_multiplier: self.market_condition_multiplier(),
        }
    }
}

/// How much of its work the process reports.
#[derive(Clone, Copy, Debug, PartialEq, Eq, Structural)]
pub enum LogLevel {
    Debug,
    Info,
    Warn,
    Error,
}

/// The level that a text names: `debug`, `info`, `warn` or `error`, in
/// lower or in upper case. Any other text, and no text, stand for `Info`.
pub open spec fn named_level(level: Option<Seq<char>>) -> LogLevel {
    match level {
        Some(text) => if text == "debug"@ || text == "DEBUG"@ {
            LogLevel::Debug
        } else if text == "warn"@ || text == "WARN"@ {
            LogLevel::Warn
        } else if text == "error"@ || text == "ERROR"@ {
            LogLevel::Error
        } else {
            LogLevel::Info
        },
        None => LogLevel::Info,
    }
}

/// The level that a text names.
pub fn log_level_of(level: Option<&str>) -> (r: LogLevel)
    ensures
        r == named_level(
            match level {
                Some(text) => Some(text@),
                None => None,
            },
        ),
{
    match level {
        Some(text) => {
            if text_eq(text, "debug") || text_eq(text, "DEBUG") {
                LogLevel::Debug
            } else if text_eq(text, "warn") || text_eq(text, "WARN") {
                LogLevel::Warn
            } else if text_eq(text, "error") || text_eq(text, "ERROR") {
                LogLevel::Error
            } else {
                LogLevel::Info
            }
        },
        None => LogLevel::Info,
    }
}

} // verus!
