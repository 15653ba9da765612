//! Scripted tools: the limits a script runs under, and how the outcome of a
//! run (a value, a parse or runtime failure, a timeout) is reported.

use std::sync::Arc;
use std::time::Duration;

use serde_json::Value;
use vstd::prelude::*;

use crate::text::{decimal, format_u64, owned, push_all};

verus! {

/// A duration of whole seconds (`Duration::from_secs`), named by its length
/// in milliseconds.
pub uninterp spec fn duration_ms(d: Duration) -> nat;

/// A duration of `secs` seconds (`std::time::Duration::from_secs`).
#[verifier::external_body]
fn duration_from_secs(secs: u64) -> (d: Duration)
    ensures
        duration_ms(d) == secs * 1000,
{
    Duration::from_secs(secs)
}

/// The length of a duration in whole milliseconds, narrowed to 64 bits
/// (`Duration::as_millis`, then `as u64`).
#[verifier::external_body]
fn duration_as_millis(d: &Duration) -> (ms: u64)
    ensures
        ms == duration_ms(*d) % 0x1_0000_0000_0000_0000,
{
    d.as_millis() as u64
}

/// Copies a duration (`<Duration as Clone>::clone`; `Duration` is `Copy`,
/// so the copy is the same duration).
pub assume_specification[ <core::time::Duration as core::clone::Clone>::clone ](d: &Duration) -> (r: Duration)
    ensures
        r == *d,
;

/// Limits and configuration for script execution.
#[derive(Debug, Clone)]
pub struct ScriptConfig {
    /// Maximum wall-clock duration for a script run.
    pub timeout: Duration,
    /// Maximum number of operations the engine may perform.
    pub max_operations: u64,
    /// Maximum call stack depth.
    pub max_call_levels: usize,
    /// Maximum expression nesting depth.
    pub max_expr_depth: usize,
    /// Maximum depth for function expressions.
    pub max_function_expr_depth: usize,
    /// Maximum size of any string value.
    pub max_string_size: usize,
    /// Maximum size of any array.
    pub max_array_size: usize,
    /// Maximum size of any map.
    pub max_map_size: usize,
    /// Maximum number of variables in scope.
    pub max_variables: usize,
    /// Maximum number of functions allowed.
    pub max_functions: usize,
    /// Maximum number of modules that can be loaded.
    pub max_modules: usize,
}

impl Default for ScriptConfig {
    /// A minute per run, a million operations, 64 call levels and expression
    /// depth, 32 function expression depth, strings of a million bytes,
    /// arrays and maps of 100 000 items, 10 000 variables, 1 000 functions
    /// and 10 modules.
    fn default() -> (c: Self)
        ensures
            duration_ms(c.timeout) == 60_000,
            c.max_operations == 1_000_000,
            c.max_call_levels == 64,
            c.max_expr_depth == 64,
            c.max_function_expr_depth == 32,
            c.max_string_size == 1_000_000,
            c.max_array_size == 100_000,
            c.max_map_size == 100_000,
            c.max_variables == 10_000,
            c.max_functions == 1_000,
            c.max_modules == 10,
    {
        ScriptConfig {
            timeout: duration_from_secs(60),
            max_operations: 1_000_000,
            max_call_levels: 64,
            max_expr_depth: 64,
            max_function_expr_depth: 32,
            max_string_size: 1_000_000,
            max_array_size: 100_000,
            max_map_size: 100_000,
            max_variables: 10_000,
            max_functions: 1_000,
            max_modules: 10,
        }
    }
}

impl ScriptConfig {
    /// The timeout in milliseconds, as reported in a timeout error.
    pub fn timeout_ms(&self) -> (ms: u64)
        ensures
            ms == duration_ms(self.timeout) % 0x1_0000_0000_0000_0000,
    {
        duration_as_millis(&self.timeout)
    }
}

/// Executes scripts using a provided API and configuration.
pub struct RhaiScriptExecutor<A> {
    api: Arc<A>,
    config: ScriptConfig,
}

impl<A> RhaiScriptExecutor<A> {
    /// Create a new script executor with the provided API and configuration.
    pub fn new(api: Arc<A>, config: ScriptConfig) -> (r: Self)
        ensures
            r.api() == api,
            r.config() == config,
    {
        RhaiScriptExecutor { api, config }
    }

    /// The API exposed to scripts.
    pub closed spec fn api(&self) -> Arc<A> {
        self.api
    }

    /// The limits scripts run under.
    pub closed spec fn config(&self) -> ScriptConfig {
        self.config
    }

    /// The API exposed to scripts.
    pub fn script_api(&self) -> (r: &Arc<A>)
        ensures
            *r == self.api(),
    {
        &self.api
    }

    /// The limits scripts run under.
    pub fn script_config(&self) -> (r: &ScriptConfig)
        ensures
            *r == self.config(),
    {
        &self.config
    }
}

/// Errors that can occur during script evaluation, with what the engine
/// reports of parse and runtime failures: the message and the line.
#[derive(Debug, Clone)]
pub enum ScriptError {
    /// The script exceeded the configured timeout.
    Timeout {
        /// Timeout duration in milliseconds.
        ms: u64,
    },
    /// The script failed to parse.
    Parse {
        /// The parser's message.
        message: String,
        /// The line of the failure, when the parser knows it.
        line: Option<usize>,
    },
    /// The script failed at runtime.
    Runtime {
        /// The engine's message.
        message: String,
        /// The line of the failure, when the engine knows it.
        line: Option<usize>,
    },
    /// A custom error emitted by the caller.
    Custom(String),
}

/// Serializable error details for script evaluation.
#[derive(Debug, Clone)]
pub struct ScriptErrorInfo {
    /// Short error category.
    pub error_type: String,
    /// Human-readable error message.
    pub message: String,
    /// Location in the script, when available.
    pub location: Option<String>,
    /// Captured backtrace frames, when available.
    pub backtrace: Option<Vec<String>>,
    /// Optional source snippet.
    pub code: Option<String>,
    /// Structured error details.
    pub details: Option<Value>,
}

/// Serializable outcome of a script evaluation.
#[derive(Debug, Clone)]
pub struct ScriptEvalOutcome {
    /// JSON value returned by the script.
    pub value: Option<Value>,
    /// Collected log lines from `print`.
    pub logs: Vec<String>,
    /// Error details when evaluation failed.
    pub error: Option<ScriptErrorInfo>,
}

/// The location text of a line: `line {n}`.
pub open spec fn location_text(line: Option<usize>) -> Option<Seq<char>> {
    match line {
        Some(n) => Some("line "@ + decimal(n as nat)),
        None => None,
    }
}

/// The backtrace frames of a runtime failure: one frame for its line.
pub open spec fn backtrace_frames(line: Option<usize>) -> Option<Seq<Seq<char>>> {
    match line {
        Some(n) => Some(seq!["at <main> (line "@ + decimal(n as nat) + ")"@]),
        None => None,
    }
}

/// The details reported for a script error: its category, message,
/// location and backtrace; no code snippet or structured details.
pub open spec fn is_error_info(info: ScriptErrorInfo, err: ScriptError) -> bool {
    &&& info.code is None
    &&& info.details is None
    &&& match err {
        ScriptError::Timeout { ms } => info.error_type@ == "timeout"@ && info.message@
            == "Script timed out after "@ + decimal(ms as nat) + "ms"@ && info.location is None
            && info.backtrace is None,
        ScriptError::Parse { message, line } => info.error_type@ == "parse"@ && info.message@
            == message@ && opt_text(info.location) == location_text(line)
            && info.backtrace is None,
        ScriptError::Runtime { message, line } => info.error_type@ == "runtime"@
            && info.message@ == message@ && opt_text(info.location)
            == location_text(line) && opt_texts(info.backtrace) == backtrace_frames(line),
        ScriptError::Custom(m) => info.error_type@ == "custom"@ && info.message@ == m@
            && info.location is None && info.backtrace is None,
    }
}

/// The text of an optional string.
pub open spec fn opt_text(s: Option<String>) -> Option<Seq<char>> {
    match s {
        Some(t) => Some(t@),
        None => None,
    }
}

/// The texts of an optional list of strings.
pub open spec fn opt_texts(s: Option<Vec<String>>) -> Option<Seq<Seq<char>>> {
    match s {
        Some(v) => Some(v@.map_values(|t: String| t@)),
        None => None,
    }
}

/// The location of a failure: `line {n}` when its line is known.
fn format_location(line: Option<usize>) -> (r: Option<String>)
    ensures
        opt_text(r) == location_text(line),
{
    match line {
        Some(n) => {
            let mut s = owned("line ");
            let digits = format_u64(n as u64);
            push_all(&mut s, digits.as_str());
            Some(s)
        },
        None => None,
    }
}

/// The backtrace of a runtime failure: a frame for its line, if known.
fn collect_backtrace(line: Option<usize>) -> (r: Option<Vec<String>>)
    ensures
        opt_texts(r) == backtrace_frames(line),
{
    match line {
        Some(n) => {
            let mut s = owned("at <main> (line ");
            let digits = format_u64(n as u64);
            push_all(&mut s, digits.as_str());
            push_all(&mut s, ")");
            let mut frames: Vec<String> = Vec::new();
            frames.push(s);
            assert(frames@.map_values(|t: String| t@) =~= seq![s@]);
            Some(frames)
        },
        None => None,
    }
}

/// Convert a script error to a structured, serializable form.
pub fn format_error(err: &ScriptError) -> (info: ScriptErrorInfo)
    ensures
        is_error_info(info, *err),
{
    match err {
        ScriptError::Timeout { ms } => {
            let mut message = owned("Script timed out after ");
            let digits = format_u64(*ms);
            push_all(&mut message, digits.as_str());
            push_all(&mut message, "ms");
            ScriptErrorInfo {
                error_type: owned("timeout"),
                message,
                location: None,
                backtrace: None,
                code: None,
                details: None,
            }
        },
        ScriptError::Parse { message, line } => {
            ScriptErrorInfo {
                error_type: owned("parse"),
                message: message.clone(),
                location: format_location(*line),
                backtrace: None,
                code: None,
                details: None,
            }
        },
        ScriptError::Runtime { message, line } => {
            ScriptErrorInfo {
                error_type: owned("runtime"),
                message: message.clone(),
                location: format_location(*line),
                backtrace: collect_backtrace(*line),
                code: None,
                details: None,
            }
        },
        ScriptError::Custom(m) => ScriptErrorInfo {
            error_type: owned("custom"),
            message: m.clone(),
            location: None,
            backtrace: None,
            code: None,
            details: None,
        },
    }
}

/// How a run ended, as the engine reports it.
#[derive(Debug, Clone)]
pub enum ScriptRun {
    /// The arguments could not be converted for the engine.
    ArgsUnconvertible(String),
    /// The script produced a value (already converted to JSON).
    Finished(Value),
    /// The script failed.
    Failed(ScriptError),
}

/// The outcome reported for a run with the logs it printed: a value, or the
/// error's details; arguments that could not be converted fail the run
/// before it starts, with no logs.
pub fn run_outcome(run: ScriptRun, logs: Vec<String>) -> (r: ScriptEvalOutcome)
    ensures
        match run {
            ScriptRun::ArgsUnconvertible(m) => r.value is None && r.logs@.len() == 0 && (r.error matches Some(
                info,
            ) && is_error_info(info, ScriptError::Custom(info.message)) && info.message@
                == "Failed to serialize args: "@ + m@),
            ScriptRun::Finished(v) => r.value == Some(v) && r.logs == logs && r.error is None,
            ScriptRun::Failed(e) => r.value is None && r.logs == logs && (r.error matches Some(
                info,
            ) && is_error_info(info, e)),
        },
{
    match run {
        ScriptRun::ArgsUnconvertible(m) => {
            let mut message = owned("Failed to serialize args: ");
            push_all(&mut message, m.as_str());
            let err = ScriptError::Custom(message);
            ScriptEvalOutcome { value: None, logs: Vec::new(), error: Some(format_error(&err)) }
        },
        ScriptRun::Finished(v) => ScriptEvalOutcome { value: Some(v), logs, error: None },
        ScriptRun::Failed(e) => ScriptEvalOutcome {
            value: None,
            logs,
            error: Some(format_error(&e)),
        },
    }
}

/// How an engine run failed, as far as the classification reads it.
#[derive(Debug, Clone)]
pub enum EngineFailure {
    /// The engine stopped the run from its progress callback, which stops a
    /// run only once the configured timeout has passed.
    Terminated,
    /// The script raised a runtime error carrying a script error value.
    Thrown(ScriptError),
    /// Any other failure: the engine's message and the line it names.
    Other {
        /// The engine's message.
        message: String,
        /// The line of the failure, when the engine knows it.
        line: Option<usize>,
    },
}

/// The script error a failed run reports: a run stopped by the timeout is a
/// timeout of `timeout_ms`, a raised script error is reported as it is, and
/// any other failure is a runtime error with the engine's message and line.
pub fn classify_failure(kind: EngineFailure, timeout_ms: u64) -> (e: ScriptError)
    ensures
        match kind {
            EngineFailure::Terminated => e == ScriptError::Timeout { ms: timeout_ms },
            EngineFailure::Thrown(x) => e == x,
            EngineFailure::Other { message, line } => e == ScriptError::Runtime { message, line },
        },
{
    match kind {
        EngineFailure::Terminated => ScriptError::Timeout { ms: timeout_ms },
        EngineFailure::Thrown(x) => x,
        EngineFailure::Other { message, line } => ScriptError::Runtime { message, line },
    }
}

} // verus!
