//! Error kinds shared by the trading components.
use vstd::prelude::*;
use crate::binance_rest::{int_to_string, int_display};

verus! {

/// Top-level error kinds.
#[derive(Clone, Debug)]
pub enum OtError {
    Config(String),
    Exchange(ExchangeError),
    RiskBreach(String),
    Strategy(String),
    Data(String),
    Storage(String),
    Model(String),
    KillSwitch(String),
    Execution(String),
}

/// Errors of an exchange connection.
#[derive(Clone, Debug)]
pub enum ExchangeError {
    Http(String),
    WebSocket(String),
    RateLimited { retry_after_ms: u64 },
    Auth(String),
    OrderRejected(String),
    InsufficientBalance(String),
    SymbolNotFound(String),
    ConnectionLost(String),
    Timeout(String),
    Parse(String),
}

impl OtError {
    /// Wraps an exchange error.
    pub fn from_exchange(e: ExchangeError) -> (r: OtError)
        ensures
            r == OtError::Exchange(e),
    {
        OtError::Exchange(e)
    }
}

/// The text of an exchange error, as its `Display` writes it.
pub open spec fn exchange_error_text(e: ExchangeError) -> Seq<char> {
    match e {
        ExchangeError::Http(s) => "HTTP error: "@ + s@,
        ExchangeError::WebSocket(s) => "WebSocket error: "@ + s@,
        ExchangeError::RateLimited { retry_after_ms } => "Rate limited, retry after "@ + int_display(
            retry_after_ms as i128,
        ) + "ms"@,
        ExchangeError::Auth(s) => "Authentication error: "@ + s@,
        ExchangeError::OrderRejected(s) => "Order rejected: "@ + s@,
        ExchangeError::InsufficientBalance(s) => "Insufficient balance: "@ + s@,
        ExchangeError::SymbolNotFound(s) => "Symbol not found: "@ + s@,
        ExchangeError::ConnectionLost(s) => "Connection lost: "@ + s@,
        ExchangeError::Timeout(s) => "Timeout: "@ + s@,
        ExchangeError::Parse(s) => "Parse error: "@ + s@,
    }
}

/// The text of an error, as its `Display` writes it.
pub open spec fn error_text(e: OtError) -> Seq<char> {
    match e {
        OtError::Config(s) => "Configuration error: "@ + s@,
        OtError::Exchange(x) => "Exchange error: "@ + exchange_error_text(x),
        OtError::RiskBreach(s) => "Risk limit breached: "@ + s@,
        OtError::Strategy(s) => "Strategy error: "@ + s@,
        OtError::Data(s) => "Data error: "@ + s@,
        OtError::Storage(s) => "Storage error: "@ + s@,
        OtError::Model(s) => "Model error: "@ + s@,
        OtError::KillSwitch(s) => "Kill switch triggered: "@ + s@,
        OtError::Execution(s) => "Execution error: "@ + s@,
    }
}

fn prefixed(prefix: &str, text: &str) -> (r: String)
    ensures
        r@ == prefix@ + text@,
{
    let mut r = String::from_str(prefix);
    r.append(text);
    r
}

impl ExchangeError {
    /// The error's text.
    pub fn message(&self) -> (r: String)
        ensures
            r@ == exchange_error_text(*self),
    {
        match self {
            ExchangeError::Http(s) => prefixed("HTTP error: ", s.as_str()),
            ExchangeError::WebSocket(s) => prefixed("WebSocket error: ", s.as_str()),
            ExchangeError::RateLimited { retry_after_ms } => {
                let mut r = prefixed(
                    "Rate limited, retry after ",
                    int_to_string(*retry_after_ms as i128).as_str(),
                );
                r.append("ms");
                r
            },
            ExchangeError::Auth(s) => prefixed("Authentication error: ", s.as_str()),
            ExchangeError::OrderRejected(s) => prefixed("Order rejected: ", s.as_str()),
            ExchangeError::InsufficientBalance(s) => prefixed("Insufficient balance: ", s.as_str()),
            ExchangeError::SymbolNotFound(s) => prefixed("Symbol not found: ", s.as_str()),
            ExchangeError::ConnectionLost(s) => prefixed("Connection lost: ", s.as_str()),
            ExchangeError::Timeout(s) => prefixed("Timeout: ", s.as_str()),
            ExchangeError::Parse(s) => prefixed("Parse error: ", s.as_str()),
        }
    }
}

impl OtError {
    /// The error's text.
    pub fn message(&self) -> (r: String)
        ensures
            r@ == error_text(*self),
    {
        match self {
            OtError::Config(s) => prefixed("Configuration error: ", s.as_str()),
            OtError::Exchange(x) => prefixed("Exchange error: ", x.message().as_str()),
            OtError::RiskBreach(s) => prefixed("Risk limit breached: ", s.as_str()),
            OtError::Strategy(s) => prefixed("Strategy error: ", s.as_str()),
            OtError::Data(s) => prefixed("Data error: ", s.as_str()),
            OtError::Storage(s) => prefixed("Storage error: ", s.as_str()),
            OtError::Model(s) => prefixed("Model error: ", s.as_str()),
            OtError::KillSwitch(s) => prefixed("Kill switch triggered: ", s.as_str()),
            OtError::Execution(s) => prefixed("Execution error: ", s.as_str()),
        }
    }
}

} // verus!
