//! A request for one bounded analysis of a symbol: its validation, the
//! strategy parameters it asks for, and what its caller gets back.

use vstd::prelude::*;
use vstd::utf8::encode_utf8;
use crate::config::{ConfigView, OFIConfig, MAX_LOOKBACK_MS};
use crate::decimal::Decimal;
use crate::endpoint::MAX_SYMBOL_BYTES;
use crate::signals::{SignalType, StrategyParams, TradingSignal};
use crate::text::{chars_of, decimal_text, render_u64};

verus! {

/// Longest analysis that a caller outside the process may ask for, in
/// milliseconds: one hour.
pub const MAX_EXTERNAL_DURATION_MS: u64 = 3_600_000;

/// Whether `char::is_alphanumeric` holds of a character.
pub uninterp spec fn char_is_alphanumeric(c: char) -> bool;

/// `char::is_alphanumeric` of std: whether a character is alphabetic or
/// numeric by its Unicode properties. The contract gives the answer a name
/// and claims nothing of which characters it holds of.
#[verifier::external_body]
fn is_alphanumeric(c: char) -> (r: bool)
    ensures
        r == char_is_alphanumeric(c),
{
    c.is_alphanumeric()
}

/// Why a request is refused.
#[derive(Clone, Copy, Debug, PartialEq, Eq, Structural)]
pub enum RequestError {
    /// The symbol is empty.
    EmptySymbol,
    /// The symbol has more than `MAX_SYMBOL_BYTES` bytes.
    SymbolTooLong,
    /// The symbol holds a character that is neither alphanumeric nor one
    /// of `_`, `-` and `/`.
    InvalidSymbolCharacters,
    /// The imbalance ratio is zero.
    ImbalanceNotPositive,
    /// The duration is zero or above the limit.
    DurationOutOfRange,
    /// The delta threshold is zero.
    DeltaNotPositive,
    /// The lookback period is zero or above `MAX_LOOKBACK_MS`.
    LookbackOutOfRange,
}

/// Whether a character may stand in a symbol, given whether it is
/// alphanumeric: letters and digits may, and `_`, `-` and `/`.
pub open spec fn allowed_in_symbol(c: char, alphanumeric: bool) -> bool {
    alphanumeric || c == '_' || c == '-' || c == '/'
}

/// Whether every character of a symbol may stand in one.
pub open spec fn symbol_is_clean(symbol: Seq<char>) -> bool {
    forall|i: int| 0 <= i < symbol.len() ==> allowed_in_symbol(#[trigger] symbol[i], char_is_alphanumeric(symbol[i]))
}

/// The first rule that a request breaks, if it breaks one.
pub open spec fn request_error(
    symbol: Seq<char>,
    imbalance_ratio: Decimal,
    duration_ms: u64,
    delta_threshold: Decimal,
    lookback_period_ms: u64,
    duration_limit_ms: u64,
) -> Option<RequestError> {
    if symbol.len() == 0 {
        Some(RequestError::EmptySymbol)
    } else if encode_utf8(symbol).len() > MAX_SYMBOL_BYTES {
        Some(RequestError::SymbolTooLong)
    } else if !symbol_is_clean(symbol) {
        Some(RequestError::InvalidSymbolCharacters)
    } else if imbalance_ratio@ == 0 {
        Some(RequestError::ImbalanceNotPositive)
    } else if duration_ms == 0 || duration_ms > duration_limit_ms {
        Some(RequestError::DurationOutOfRange)
    } else if delta_threshold@ == 0 {
        Some(RequestError::DeltaNotPositive)
    } else if lookback_period_ms == 0 || lookback_period_ms > MAX_LOOKBACK_MS {
        Some(RequestError::LookbackOutOfRange)
    } else {
        None
    }
}

/// Whether a character may stand in a symbol, given whether it is
/// alphanumeric.
pub fn symbol_char_allowed(c: char, alphanumeric: bool) -> (r: bool)
    ensures
        r == allowed_in_symbol(c, alphanumeric),
{
    alphanumeric || c == '_' || c == '-' || c == '/'
}

/// Whether every character of a symbol may stand in one.
pub fn symbol_chars_allowed(symbol: &str) -> (r: bool)
    ensures
        r == symbol_is_clean(symbol@),
{
    let chars = chars_of(symbol);
    let mut i: usize = 0;
    while i < chars.len()
        invariant
            i <= chars.len(),
            chars@ == symbol@,
            forall|k: int| 0 <= k < i ==> allowed_in_symbol(#[trigger] symbol@[k], char_is_alphanumeric(symbol@[k])),
        decreases chars.len() - i,
    {
        let c = chars[i];
        if !symbol_char_allowed(c, is_alphanumeric(c)) {
            return false;
        }
        i += 1;
    }
    true
}

/// Checks a request against its rules, in a fixed order. `duration_limit_ms`
/// is the longest analysis that may be asked for.
pub fn validate_request(
    symbol: &str,
    imbalance_ratio: Decimal,
    duration_ms: u64,
    delta_threshold: Decimal,
    lookback_period_ms: u64,
    duration_limit_ms: u64,
) -> (r: Result<(), RequestError>)
    ensures
        r == match request_error(
            symbol@,
            imbalance_ratio,
            duration_ms,
            delta_threshold,
            lookback_period_ms,
            duration_limit_ms,
        ) {
            Some(e) => Err::<(), RequestError>(e),
            None => Ok(()),
        },
{
    if symbol.is_empty() {
        return Err(RequestError::EmptySymbol);
    }
    if symbol.as_bytes().len() > MAX_SYMBOL_BYTES {
        return Err(RequestError::SymbolTooLong);
    }
    if !symbol_chars_allowed(symbol) {
        return Err(RequestError::InvalidSymbolCharacters);
    }
    if imbalance_ratio.raw() == 0 {
        return Err(RequestError::ImbalanceNotPositive);
    }
    if duration_ms == 0 || duration_ms > duration_limit_ms {
        return Err(RequestError::DurationOutOfRange);
    }
    if delta_threshold.raw() == 0 {
        return Err(RequestError::DeltaNotPositive);
    }
    if lookback_period_ms == 0 || lookback_period_ms > MAX_LOOKBACK_MS {
        return Err(RequestError::LookbackOutOfRange);
    }
    Ok(())
}

/// The text of a refusal. `duration_limit_ms` is the limit that the request
/// was checked against.
pub open spec fn request_error_text(error: RequestError, duration_limit_ms: u64) -> Seq<char> {
    match error {
        RequestError::EmptySymbol => "Symbol cannot be empty"@,
        RequestError::SymbolTooLong => "Symbol is too long: max 20 characters"@,
        RequestError::InvalidSymbolCharacters => "Symbol contains invalid characters"@,
        RequestError::ImbalanceNotPositive => "Imbalance ratio must be positive"@,
        RequestError::DurationOutOfRange => "Duration must be between 1ms and "@ + decimal_text(
            duration_limit_ms as nat,
        ) + "ms"@,
        RequestError::DeltaNotPositive => "Delta threshold must be positive"@,
        RequestError::LookbackOutOfRange => "Lookback period must be between 1ms and 5 minutes"@,
    }
}

/// The text of a refusal.
pub fn request_error_message(error: RequestError, duration_limit_ms: u64) -> (r: String)
    ensures
        r@ == request_error_text(error, duration_limit_ms),
{
    match error {
        RequestError::EmptySymbol => String::from_str("Symbol cannot be empty"),
        RequestError::SymbolTooLong => String::from_str("Symbol is too long: max 20 characters"),
        RequestError::InvalidSymbolCharacters => String::from_str("Symbol contains invalid characters"),
        RequestError::ImbalanceNotPositive => String::from_str("Imbalance ratio must be positive"),
        RequestError::DurationOutOfRange => {
            let mut r = String::from_str("Duration must be between 1ms and ");
            let limit = render_u64(duration_limit_ms);
            r.append(limit.as_str());
            r.append("ms");
            r
        },
        RequestError::DeltaNotPositive => String::from_str("Delta threshold must be positive"),
        RequestError::LookbackOutOfRange => String::from_str("Lookback period must be between 1ms and 5 minutes"),
    }
}

/// The text of a refusal of a request from outside the process, whose
/// duration is checked against `MAX_EXTERNAL_DURATION_MS`.
pub fn external_request_error_message(error: RequestError) -> (r: String)
    ensures
        r@ == match error {
            RequestError::DurationOutOfRange => "Duration must be between 1ms and 1 hour"@,
            _ => request_error_text(error, MAX_EXTERNAL_DURATION_MS),
        },
{
    match error {
        RequestError::DurationOutOfRange => String::from_str("Duration must be between 1ms and 1 hour"),
        _ => request_error_message(error, MAX_EXTERNAL_DURATION_MS),
    }
}

/// The strategy parameters of a request under a configuration: thresholds
/// and lookback as asked for, the absorption threshold of the
/// configuration, and a multiplier of one.
pub open spec fn request_params(
    imbalance_ratio: Decimal,
    delta_threshold: Decimal,
    lookback_period_ms: u64,
    config: ConfigView,
) -> StrategyParams {
    StrategyParams {
        imbalance_threshold: imbalance_ratio,
        absorption_threshold: config.default_absorption_threshold,
        delta_threshold,
        lookback_period_ms,
        market_condition_multiplier: Decimal::spec_one(),
    }
}

/// Checks a request against the duration limit of the configuration and
/// gives the strategy parameters that it asks for.
pub fn prepare_analysis(
    symbol: &str,
    imbalance_ratio: Decimal,
    duration_ms: u64,
    delta_threshold: Decimal,
    lookback_period_ms: u64,
    config: &OFIConfig,
) -> (r: Result<StrategyParams, RequestError>)
    ensures
        r == match request_error(
            symbol@,
            imbalance_ratio,
            duration_ms,
            delta_threshold,
            lookback_period_ms,
            config.analysis_duration_limit_ms,
        ) {
            Some(e) => Err::<StrategyParams, RequestError>(e),
            None => Ok(request_params(imbalance_ratio, delta_threshold, lookback_period_ms, config@)),
        },
{
    match validate_request(
        symbol,
        imbalance_ratio,
        duration_ms,
        delta_threshold,
        lookback_period_ms,
        config.analysis_duration_limit_ms,
    ) {
        Err(e) => Err(e),
        Ok(_) => Ok(
            StrategyParams {
                imbalance_threshold: imbalance_ratio,
                absorption_threshold: config.default_absorption_threshold,
                delta_threshold,
                lookback_period_ms,
                market_condition_multiplier: Decimal::one(),
            },
        ),
    }
}

/// How the wait for the first signal of an analysis ended.
#[derive(Debug)]
pub enum Awaited {
    /// A signal came within the time allowed.
    Signal(TradingSignal),
    /// The session ended without a signal.
    Closed,
    /// The time allowed ran out.
    TimedOut,
}

/// What the caller of an analysis gets back: the signal, if one came in
/// time and it is not `NoSignal`; nothing after a timeout or a `NoSignal`;
/// an error if the session ended first.
pub fn analysis_outcome(awaited: Awaited) -> (r: Result<Option<TradingSignal>, String>)
    ensures
        match awaited {
            Awaited::Signal(signal) => r.is_ok() && if signal.signal_type == SignalType::NoSignal {
                r.unwrap().is_none()
            } else {
                r.unwrap() == Some(signal)
            },
            Awaited::Closed => r.is_err() && r.unwrap_err()@ == "WebSocket manager shutdown"@,
            Awaited::TimedOut => r.is_ok() && r.unwrap().is_none(),
        },
{
    match awaited {
        Awaited::Signal(signal) => {
            if signal.signal_type == SignalType::NoSignal {
                Ok(None)
            } else {
                Ok(Some(signal))
            }
        },
        Awaited::Closed => Err(String::from_str("WebSocket manager shutdown")),
        Awaited::TimedOut => Ok(None),
    }
}

} // verus!
