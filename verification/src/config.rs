use vstd::prelude::*;
use vstd::string::StringExecFns;

verus! {

pub const APP_NAME: &'static str = "ollama-bench";

pub const APP_VERSION: &'static str = "0.1.0";

pub const APP_DESCRIPTION: &'static str =
    "⚡ Apache Bench-style Ollama LLM performance benchmarking";

pub const DEFAULT_OLLAMA_BASE_URL: &'static str = "http://localhost:11434";

pub const DEFAULT_ITERATIONS: u32 = 5;

pub const DEFAULT_TIMEOUT_SECONDS: u64 = 120;

/// Default sampling temperature, in thousandths (700 stands for 0.7).
pub const DEFAULT_TEMPERATURE_MILLI: i32 = 700;

pub const DEFAULT_MAX_TOKENS: i32 = 100;

pub const DEFAULT_PROMPT: &'static str = "Write a haiku about benchmarking language models.";

pub const PROGRESS_BAR_WIDTH: usize = 32;

pub const PROGRESS_REFRESH_RATE_MS: u64 = 100;

/// Margin, in thousandths of a percent, under which two models are
/// considered to perform alike (5000 stands for 5%).
pub const WINNER_THRESHOLD_MILLI_PERCENT: u64 = 5000;

pub struct TableWidths {
    pub model: usize,
    pub avg_speed: usize,
    pub ttft: usize,
    pub success_rate: usize,
}

/// The column widths of the results table.
pub fn table_column_widths() -> (r: TableWidths)
    ensures
        r.model == 13,
        r.avg_speed == 13,
        r.ttft == 13,
        r.success_rate == 14,
{
    TableWidths { model: 13, avg_speed: 13, ttft: 13, success_rate: 14 }
}

pub struct TerminalColors {
    pub success: &'static str,
    pub error: &'static str,
    pub warning: &'static str,
    pub info: &'static str,
    pub reset: &'static str,
    pub bold: &'static str,
}

/// The ANSI escape codes used for terminal colouring.
pub fn terminal_colors() -> (r: TerminalColors)
    ensures
        r.success@ == "\x1b[32m"@,
        r.error@ == "\x1b[31m"@,
        r.warning@ == "\x1b[33m"@,
        r.info@ == "\x1b[36m"@,
        r.reset@ == "\x1b[0m"@,
        r.bold@ == "\x1b[1m"@,
{
    TerminalColors {
        success: "\x1b[32m",
        error: "\x1b[31m",
        warning: "\x1b[33m",
        info: "\x1b[36m",
        reset: "\x1b[0m",
        bold: "\x1b[1m",
    }
}

/// The user-agent string sent with every request: name, a slash, version.
pub fn get_user_agent() -> (r: String)
    ensures
        r@ == APP_NAME@ + "/"@ + APP_VERSION@,
{
    let mut s = String::from_str(APP_NAME);
    s.append("/");
    s.append(APP_VERSION);
    s
}

/// The headers attached to every request to the server.
pub fn get_default_headers() -> (r: Vec<(&'static str, &'static str)>)
    ensures
        r@.len() == 2,
        r@[0].0@ == "Accept"@,
        r@[0].1@ == "application/json"@,
        r@[1].0@ == "Content-Type"@,
        r@[1].1@ == "application/json"@,
{
    let mut v: Vec<(&'static str, &'static str)> = Vec::new();
    v.push(("Accept", "application/json"));
    v.push(("Content-Type", "application/json"));
    v
}

} // verus!
