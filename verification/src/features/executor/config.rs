//! Configuration of the executor: which vendors are configured, the retry
//! budget and timeouts. Values come from environment variables, which the
//! application reads and hands over as optional strings.

use crate::diagnostics::{lines_view, LogLevel, LogLine};
use crate::text::{decimal_digits, format_u64, parse_u32, parse_u64, parse_unsigned};
use vstd::prelude::*;
use vstd::string::*;

verus! {

/// Default vendor request timeout, in milliseconds.
pub const DEFAULT_TIMEOUT_MS: u64 = 30000;

/// Default number of retries after a first failed attempt.
pub const DEFAULT_MAX_RETRIES: u32 = 3;

/// The OpenAI endpoint used when none is configured.
pub open spec fn default_openai_base_url() -> Seq<char> {
    "https://api.openai.com/v1"@
}

/// The models that the OpenAI vendor serves.
pub open spec fn default_openai_models() -> Seq<Seq<char>> {
    seq!["gpt-4"@, "gpt-4-turbo"@, "gpt-3.5-turbo"@]
}

/// The text of an optional variable, or `default` when it is unset.
pub open spec fn text_or(v: Option<String>, default: Seq<char>) -> Seq<char> {
    match v {
        Some(s) => s@,
        None => default,
    }
}

/// An optional variable read as an unsigned number no larger than `max`,
/// or `default` when it is unset or does not parse.
pub open spec fn number_or(v: Option<String>, max: int, default: int) -> int {
    match v {
        Some(s) => match parse_unsigned(s@, max) {
            Some(n) => n,
            None => default,
        },
        None => default,
    }
}

/// What is wrong with an OpenAI configuration, if anything: a missing key
/// first, then an empty model list.
pub open spec fn openai_config_problem(c: OpenAIConfig) -> Option<Seq<char>> {
    if c.api_key@.len() == 0 {
        Some("OPENAI_API_KEY is not set or empty"@)
    } else if c.supported_models@.len() == 0 {
        Some("No supported models configured"@)
    } else {
        None
    }
}

/// OpenAI vendor configuration.
pub struct OpenAIConfig {
    /// API key for authentication.
    pub api_key: String,
    /// Base URL of the API.
    pub base_url: String,
    /// Request timeout in milliseconds.
    pub timeout_ms: u64,
    /// The model ids that this vendor serves.
    pub supported_models: Vec<String>,
}

impl OpenAIConfig {
    /// Builds the configuration from the values of `OPENAI_API_KEY`,
    /// `OPENAI_BASE_URL` and `OPENAI_TIMEOUT_MS`: a missing key is empty, a
    /// missing URL is the public endpoint, and a missing or malformed timeout
    /// is thirty seconds.
    pub fn from_env_values(
        api_key: Option<String>,
        base_url: Option<String>,
        timeout_ms: Option<String>,
    ) -> (c: OpenAIConfig)
        ensures
            c.api_key@ == text_or(api_key, Seq::empty()),
            c.base_url@ == text_or(base_url, default_openai_base_url()),
            c.timeout_ms == number_or(timeout_ms, u64::MAX as int, DEFAULT_TIMEOUT_MS as int),
            c.supported_models.deep_view() == default_openai_models(),
    {
        let api_key = match api_key {
            Some(k) => k,
            None => String::new(),
        };
        let base_url = match base_url {
            Some(u) => u,
            None => {
                proof { reveal_strlit("https://api.openai.com/v1"); }
                String::from_str("https://api.openai.com/v1")
            },
        };
        let timeout_ms = match timeout_ms {
            Some(t) => match parse_u64(t.as_str()) {
                Some(n) => n,
                None => DEFAULT_TIMEOUT_MS,
            },
            None => DEFAULT_TIMEOUT_MS,
        };
        let mut supported_models: Vec<String> = Vec::new();
        supported_models.push(String::from_str("gpt-4"));
        supported_models.push(String::from_str("gpt-4-turbo"));
        supported_models.push(String::from_str("gpt-3.5-turbo"));
        assert(supported_models.deep_view() =~= default_openai_models());
        OpenAIConfig { api_key, base_url, timeout_ms, supported_models }
    }

    /// Checks that a key is set and that some model is served.
    pub fn validate(&self) -> (r: Result<(), String>)
        ensures
            match r {
                Ok(()) => openai_config_problem(*self) is None,
                Err(m) => openai_config_problem(*self) == Some(m@),
            },
    {
        if self.api_key.as_str().is_empty() {
            proof { reveal_strlit("OPENAI_API_KEY is not set or empty"); }
            return Err(String::from_str("OPENAI_API_KEY is not set or empty"));
        }
        if self.supported_models.len() == 0 {
            proof { reveal_strlit("No supported models configured"); }
            return Err(String::from_str("No supported models configured"));
        }
        Ok(())
    }
}

/// Configuration of the executor layer.
pub struct ExecutorConfig {
    /// OpenAI vendor configuration, when OpenAI is configured.
    pub openai: Option<OpenAIConfig>,
    /// Anthropic API key (no Anthropic vendor exists yet).
    pub anthropic_api_key: Option<String>,
    /// Request timeout in milliseconds.
    pub timeout_ms: u64,
    /// Number of retries after a first failed attempt.
    pub max_retries: u32,
}

impl Default for ExecutorConfig {
    fn default() -> (c: Self)
        ensures
            c.openai is None,
            c.anthropic_api_key is None,
            c.timeout_ms == DEFAULT_TIMEOUT_MS,
            c.max_retries == DEFAULT_MAX_RETRIES,
    {
        ExecutorConfig {
            openai: None,
            anthropic_api_key: None,
            timeout_ms: DEFAULT_TIMEOUT_MS,
            max_retries: DEFAULT_MAX_RETRIES,
        }
    }
}

/// The diagnostics that `ExecutorConfig::validate` reports for a
/// configuration, in order.
pub open spec fn config_diagnostics(c: ExecutorConfig) -> Seq<(LogLevel, Seq<char>)> {
    let none_configured: Seq<(LogLevel, Seq<char>)> = if c.openai is None
        && c.anthropic_api_key is None {
        seq![
            (
                LogLevel::Warn,
                "No LLM vendor API keys configured. Set OPENAI_API_KEY or ANTHROPIC_API_KEY."@,
            ),
        ]
    } else {
        seq![]
    };
    let openai: Seq<(LogLevel, Seq<char>)> = match c.openai {
        Some(o) => if o.api_key@.len() == 0 {
            seq![
                (
                    LogLevel::Warn,
                    "OpenAI configuration invalid: "@ + "OPENAI_API_KEY is not set or empty"@,
                ),
            ]
        } else if o.supported_models@.len() == 0 {
            seq![
                (
                    LogLevel::Warn,
                    "OpenAI configuration invalid: "@ + "No supported models configured"@,
                ),
            ]
        } else {
            seq![
                (
                    LogLevel::Info,
                    "OpenAI vendor configured with "@ + decimal_digits(
                        o.supported_models@.len(),
                    ) + " models"@,
                ),
            ]
        },
        None => seq![],
    };
    let anthropic: Seq<(LogLevel, Seq<char>)> = match c.anthropic_api_key {
        Some(k) => if k@.len() == 0 {
            seq![(LogLevel::Warn, "ANTHROPIC_API_KEY is empty"@)]
        } else {
            seq![(LogLevel::Info, "Anthropic vendor configured"@)]
        },
        None => seq![],
    };
    none_configured + openai + anthropic + seq![
        (LogLevel::Info, "Executor timeout: "@ + decimal_digits(c.timeout_ms as nat) + "ms"@),
        (LogLevel::Info, "Executor max retries: "@ + decimal_digits(c.max_retries as nat)),
    ]
}

/// A log line from a literal message.
fn line(level: LogLevel, message: &str) -> (l: LogLine)
    ensures
        l@ == (level, message@),
{
    LogLine { level, message: message.to_string() }
}

impl ExecutorConfig {
    /// Builds the configuration from environment values. OpenAI is
    /// configured exactly when `OPENAI_API_KEY` is set; timeouts and the
    /// retry budget fall back to their defaults when unset or malformed.
    pub fn from_env_values(
        openai_api_key: Option<String>,
        openai_base_url: Option<String>,
        openai_timeout_ms: Option<String>,
        anthropic_api_key: Option<String>,
        timeout_ms: Option<String>,
        max_retries: Option<String>,
    ) -> (c: ExecutorConfig)
        ensures
            (c.openai is Some) == (openai_api_key is Some),
            c.openai matches Some(o) ==> {
                &&& o.api_key@ == text_or(openai_api_key, Seq::empty())
                &&& o.base_url@ == text_or(openai_base_url, default_openai_base_url())
                &&& o.timeout_ms == number_or(
                    openai_timeout_ms,
                    u64::MAX as int,
                    DEFAULT_TIMEOUT_MS as int,
                )
                &&& o.supported_models.deep_view() == default_openai_models()
            },
            c.anthropic_api_key == anthropic_api_key,
            c.timeout_ms == number_or(timeout_ms, u64::MAX as int, DEFAULT_TIMEOUT_MS as int),
            c.max_retries == number_or(
                max_retries,
                u32::MAX as int,
                DEFAULT_MAX_RETRIES as int,
            ),
    {
        let openai = if openai_api_key.is_some() {
            Some(OpenAIConfig::from_env_values(openai_api_key, openai_base_url, openai_timeout_ms))
        } else {
            None
        };
        let timeout_ms = match timeout_ms {
            Some(t) => match parse_u64(t.as_str()) {
                Some(n) => n,
                None => DEFAULT_TIMEOUT_MS,
            },
            None => DEFAULT_TIMEOUT_MS,
        };
        let max_retries = match max_retries {
            Some(t) => match parse_u32(t.as_str()) {
                Some(n) => n,
                None => DEFAULT_MAX_RETRIES,
            },
            None => DEFAULT_MAX_RETRIES,
        };
        ExecutorConfig { openai, anthropic_api_key, timeout_ms, max_retries }
    }

    /// The diagnostics to log about this configuration: missing vendors,
    /// the state of each configured vendor, the timeout and the retry budget.
    pub fn validate(&self) -> (lines: Vec<LogLine>)
        ensures
            lines_view(lines@) == config_diagnostics(*self),
    {
        let mut lines: Vec<LogLine> = Vec::new();
        if self.openai.is_none() && self.anthropic_api_key.is_none() {
            lines.push(
                line(
                    LogLevel::Warn,
                    "No LLM vendor API keys configured. Set OPENAI_API_KEY or ANTHROPIC_API_KEY.",
                ),
            );
        }
        let ghost first = lines@;
        match &self.openai {
            Some(o) => match o.validate() {
                Err(e) => {
                    let mut m = String::from_str("OpenAI configuration invalid: ");
                    m.append(e.as_str());
                    lines.push(LogLine { level: LogLevel::Warn, message: m });
                },
                Ok(()) => {
                    let mut m = String::from_str("OpenAI vendor configured with ");
                    let n = format_u64(o.supported_models.len() as u64);
                    m.append(n.as_str());
                    m.append(" models");
                    lines.push(LogLine { level: LogLevel::Info, message: m });
                },
            },
            None => {},
        }
        let ghost second = lines@;
        match &self.anthropic_api_key {
            Some(k) => {
                if k.as_str().is_empty() {
                    lines.push(line(LogLevel::Warn, "ANTHROPIC_API_KEY is empty"));
                } else {
                    lines.push(line(LogLevel::Info, "Anthropic vendor configured"));
                }
            },
            None => {},
        }
        let ghost third = lines@;
        let mut t = String::from_str("Executor timeout: ");
        let tn = format_u64(self.timeout_ms);
        t.append(tn.as_str());
        t.append("ms");
        lines.push(LogLine { level: LogLevel::Info, message: t });
        let mut r = String::from_str("Executor max retries: ");
        let rn = format_u64(self.max_retries as u64);
        r.append(rn.as_str());
        lines.push(LogLine { level: LogLevel::Info, message: r });
        proof {
            reveal_strlit(
                "No LLM vendor API keys configured. Set OPENAI_API_KEY or ANTHROPIC_API_KEY.",
            );
            reveal_strlit("OpenAI configuration invalid: ");
            reveal_strlit("OPENAI_API_KEY is not set or empty");
            reveal_strlit("No supported models configured");
            reveal_strlit("OpenAI vendor configured with ");
            reveal_strlit(" models");
            reveal_strlit("ANTHROPIC_API_KEY is empty");
            reveal_strlit("Anthropic vendor configured");
            reveal_strlit("Executor timeout: ");
            reveal_strlit("ms");
            reveal_strlit("Executor max retries: ");
            assert(lines_view(lines@) =~= config_diagnostics(*self));
        }
        lines
    }
}

} // verus!
