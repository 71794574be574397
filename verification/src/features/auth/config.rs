//! Authentication configuration: development-mode bypass, the client id it
//! injects, and the threshold for reporting slow operations. Values come from
//! environment variables, which the application reads and hands over.

use crate::diagnostics::{lines_view, LogLevel, LogLine};
use crate::features::executor::config::{number_or, text_or};
use crate::text::{parse_bool, parse_flag, parse_u64};
use vstd::prelude::*;
use vstd::string::*;

verus! {

/// Client id injected in development mode unless configured otherwise.
pub open spec fn default_dev_client_id() -> Seq<char> {
    "dev-client-123"@
}

/// Default slow-operation threshold, in milliseconds.
pub const DEFAULT_SLOW_THRESHOLD_MS: u64 = 10;

/// Development mode is on exactly when the variable reads `true`, as
/// `str::parse::<bool>` reads it; unset or malformed means off.
pub open spec fn dev_mode_from(v: Option<String>) -> bool {
    match v {
        Some(s) => parse_flag(s@) == Some(true),
        None => false,
    }
}

/// Authentication configuration.
#[derive(Debug)]
pub struct AuthConfig {
    /// Requests are admitted without API keys, as the development client.
    pub development_mode: bool,
    /// Client id injected in development mode.
    pub dev_client_id: String,
    /// Operations slower than this many milliseconds are reported.
    pub slow_operation_threshold_ms: u64,
}

impl Default for AuthConfig {
    fn default() -> (c: Self)
        ensures
            !c.development_mode,
            c.dev_client_id@ == default_dev_client_id(),
            c.slow_operation_threshold_ms == DEFAULT_SLOW_THRESHOLD_MS,
    {
        proof { reveal_strlit("dev-client-123"); }
        AuthConfig {
            development_mode: false,
            dev_client_id: String::from_str("dev-client-123"),
            slow_operation_threshold_ms: DEFAULT_SLOW_THRESHOLD_MS,
        }
    }
}

/// The diagnostics that `AuthConfig::log_warnings` reports.
pub open spec fn auth_diagnostics(c: AuthConfig) -> Seq<(LogLevel, Seq<char>)> {
    if c.development_mode {
        seq![
            (LogLevel::Warn, "🚨 AUTH_DEVELOPMENT_MODE is ENABLED"@),
            (LogLevel::Warn, "🚨 Authentication is BYPASSED for development"@),
            (LogLevel::Warn, "🚨 This should NEVER be enabled in production"@),
            (LogLevel::Warn, "🚨 Mock client ID: "@ + c.dev_client_id@),
        ]
    } else {
        seq![(LogLevel::Info, "✅ Authentication is ENABLED (production mode)"@)]
    }
}

impl AuthConfig {
    /// Builds the configuration from the values of `AUTH_DEVELOPMENT_MODE`,
    /// `AUTH_DEV_CLIENT_ID` and `AUTH_SLOW_THRESHOLD_MS`.
    pub fn from_env_values(
        development_mode: Option<String>,
        dev_client_id: Option<String>,
        slow_threshold_ms: Option<String>,
    ) -> (c: AuthConfig)
        ensures
            c.development_mode == dev_mode_from(development_mode),
            c.dev_client_id@ == text_or(dev_client_id, default_dev_client_id()),
            c.slow_operation_threshold_ms == number_or(
                slow_threshold_ms,
                u64::MAX as int,
                DEFAULT_SLOW_THRESHOLD_MS as int,
            ),
    {
        let development_mode = match development_mode {
            Some(v) => match parse_bool(v.as_str()) {
                Some(b) => b,
                None => false,
            },
            None => false,
        };
        let dev_client_id = match dev_client_id {
            Some(v) => v,
            None => {
                proof { reveal_strlit("dev-client-123"); }
                String::from_str("dev-client-123")
            },
        };
        let slow_operation_threshold_ms = match slow_threshold_ms {
            Some(v) => match parse_u64(v.as_str()) {
                Some(n) => n,
                None => DEFAULT_SLOW_THRESHOLD_MS,
            },
            None => DEFAULT_SLOW_THRESHOLD_MS,
        };
        AuthConfig { development_mode, dev_client_id, slow_operation_threshold_ms }
    }

    /// Whether development mode is enabled.
    pub fn is_development_mode(&self) -> (r: bool)
        ensures
            r == self.development_mode,
    {
        self.development_mode
    }

    /// The development client id.
    pub fn get_dev_client_id(&self) -> (r: &str)
        ensures
            r@ == self.dev_client_id@,
    {
        self.dev_client_id.as_str()
    }

    /// The slow-operation threshold in milliseconds.
    pub fn get_slow_threshold_ms(&self) -> (r: u64)
        ensures
            r == self.slow_operation_threshold_ms,
    {
        self.slow_operation_threshold_ms
    }

    /// The lines to log about this configuration: loud warnings when
    /// authentication is bypassed, naming the injected client, and a
    /// confirmation otherwise.
    pub fn log_warnings(&self) -> (lines: Vec<LogLine>)
        ensures
            lines_view(lines@) == auth_diagnostics(*self),
    {
        let mut lines: Vec<LogLine> = Vec::new();
        proof {
            reveal_strlit("🚨 AUTH_DEVELOPMENT_MODE is ENABLED");
            reveal_strlit("🚨 Authentication is BYPASSED for development");
            reveal_strlit("🚨 This should NEVER be enabled in production");
            reveal_strlit("🚨 Mock client ID: ");
            reveal_strlit("✅ Authentication is ENABLED (production mode)");
        }
        if self.development_mode {
            lines.push(
                LogLine {
                    level: LogLevel::Warn,
                    message: String::from_str("🚨 AUTH_DEVELOPMENT_MODE is ENABLED"),
                },
            );
            lines.push(
                LogLine {
                    level: LogLevel::Warn,
                    message: String::from_str("🚨 Authentication is BYPASSED for development"),
                },
            );
            lines.push(
                LogLine {
                    level: LogLevel::Warn,
                    message: String::from_str("🚨 This should NEVER be enabled in production"),
                },
            );
            let mut m = String::from_str("🚨 Mock client ID: ");
            m.append(self.dev_client_id.as_str());
            lines.push(LogLine { level: LogLevel::Warn, message: m });
        } else {
            lines.push(
                LogLine {
                    level: LogLevel::Info,
                    message: String::from_str("✅ Authentication is ENABLED (production mode)"),
                },
            );
        }
        assert(lines_view(lines@) =~= auth_diagnostics(*self));
        lines
    }
}

} // verus!
