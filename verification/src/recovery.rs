//! Retry and fallback settings, and the decisions they make about a failed
//! operation.
use vstd::prelude::*;
use std::time::Duration;

verus! {

/// The duration of `n` seconds.
pub uninterp spec fn seconds(n: u64) -> Duration;

/// The duration of `n` milliseconds.
pub uninterp spec fn millis(n: u64) -> Duration;

/// `Duration::from_secs`.
#[verifier::external_body]
fn from_secs(n: u64) -> (r: Duration)
    ensures
        r == seconds(n),
{
    Duration::from_secs(n)
}

/// `Duration::from_millis`.
#[verifier::external_body]
fn from_millis(n: u64) -> (r: Duration)
    ensures
        r == millis(n),
{
    Duration::from_millis(n)
}

/// How an operation is retried.
#[derive(Debug, Clone, Copy)]
pub struct RetryConfig {
    /// Maximum number of retry attempts
    pub max_retries: u32,
    /// Delay between retries
    pub retry_delay: Duration,
    /// Whether to use exponential backoff
    pub use_exponential_backoff: bool,
    /// Base delay for exponential backoff
    pub base_delay: Duration,
}

impl Default for RetryConfig {
    /// Three retries, one second apart, with exponential backoff from 100 ms.
    fn default() -> (r: Self)
        ensures
            r.max_retries == 3,
            r.retry_delay == seconds(1),
            r.use_exponential_backoff,
            r.base_delay == millis(100),
    {
        RetryConfig {
            max_retries: 3,
            retry_delay: from_secs(1),
            use_exponential_backoff: true,
            base_delay: from_millis(100),
        }
    }
}

impl RetryConfig {
    /// Whether an operation that failed after `attempts` retries, with an error that
    /// is or is not retryable, is tried again.
    pub fn should_retry(&self, attempts: u32, retryable: bool) -> (r: bool)
        ensures
            r == (attempts < self.max_retries && retryable),
    {
        attempts < self.max_retries && retryable
    }
}

/// Whether a failed operation falls back.
#[derive(Debug, Clone, Copy, PartialEq, Eq, Structural)]
pub struct FallbackConfig {
    /// Whether to use fallback mode
    pub use_fallback: bool,
    /// Whether to log fallback usage
    pub log_fallback: bool,
}

impl Default for FallbackConfig {
    /// Fall back, and log it.
    fn default() -> (r: Self)
        ensures
            r == (FallbackConfig { use_fallback: true, log_fallback: true }),
    {
        FallbackConfig { use_fallback: true, log_fallback: true }
    }
}

/// What becomes of an operation's outcome.
#[derive(Debug, Clone, Copy, PartialEq, Eq, Structural)]
pub enum FallbackAction {
    /// The operation succeeded: its result stands.
    UsePrimary,
    /// It failed and there is no fallback: its error stands.
    ReturnError,
    /// It failed: the fallback runs, after a log line when `log` is set.
    UseFallback { log: bool },
}

impl FallbackConfig {
    /// What becomes of an outcome that succeeded or failed.
    pub fn action(&self, primary_succeeded: bool) -> (r: FallbackAction)
        ensures
            r == if primary_succeeded {
                FallbackAction::UsePrimary
            } else if !self.use_fallback {
                FallbackAction::ReturnError
            } else {
                FallbackAction::UseFallback { log: self.log_fallback }
            },
    {
        if primary_succeeded {
            FallbackAction::UsePrimary
        } else if !self.use_fallback {
            FallbackAction::ReturnError
        } else {
            FallbackAction::UseFallback { log: self.log_fallback }
        }
    }
}

/// Retry and fallback settings together.
#[derive(Debug)]
pub struct ErrorRecovery {
    /// Retry configuration
    pub retry_config: RetryConfig,
    /// Fallback configuration
    pub fallback_config: FallbackConfig,
}

impl Default for ErrorRecovery {
    fn default() -> (r: Self)
        ensures
            r.retry_config.max_retries == 3,
            r.retry_config.retry_delay == seconds(1),
            r.retry_config.use_exponential_backoff,
            r.retry_config.base_delay == millis(100),
            r.fallback_config == (FallbackConfig { use_fallback: true, log_fallback: true }),
    {
        ErrorRecovery { retry_config: RetryConfig::default(), fallback_config: FallbackConfig::default() }
    }
}

impl ErrorRecovery {
    /// The default settings.
    pub fn new() -> (r: Self)
        ensures
            r.retry_config.max_retries == 3,
            r.retry_config.retry_delay == seconds(1),
            r.retry_config.use_exponential_backoff,
            r.retry_config.base_delay == millis(100),
            r.fallback_config == (FallbackConfig { use_fallback: true, log_fallback: true }),
    {
        Self::default()
    }
}

/// Runs `primary`. Its success stands; its failure stands too unless the settings
/// allow a fallback, in which case `fallback` is handed the error and its result
/// is returned.
pub fn with_fallback<T, E, F, G>(config: &FallbackConfig, primary: F, fallback: G) -> (r: Result<T, E>)
    where
        F: Fn() -> Result<T, E>,
        G: FnOnce(E) -> Result<T, E>,
    requires
        primary.requires(()),
        forall|e: E| fallback.requires((e,)),
    ensures
        exists|p: Result<T, E>|
            #[trigger] primary.ensures((), p) && match p {
                Ok(_) => r == p,
                Err(e) => if config.use_fallback {
                    fallback.ensures((e,), r)
                } else {
                    r == p
                },
            },
{
    let p = primary();
    match p {
        Ok(v) => Ok(v),
        Err(e) => {
            if !config.use_fallback {
                return Err(e);
            }
            fallback(e)
        },
    }
}

} // verus!
