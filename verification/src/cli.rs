use vstd::prelude::*;
use vstd::string::StrSliceExecFns;
use vstd::string::StringExecFns;

use crate::config::DEFAULT_PROMPT;

verus! {

/// How results are rendered.
#[derive(Clone, Copy, Debug, PartialEq, Eq, Structural)]
pub enum OutputFormat {
    Table,
    Json,
    Csv,
    Markdown,
}

/// The parsed command line, with the sampling temperature in thousandths
/// (700 stands for 0.7) so that every bound below is an exact integer.
#[derive(Debug, Clone)]
pub struct Cli {
    pub models: Vec<String>,
    pub iterations: u32,
    pub output: OutputFormat,
    pub prompt: Option<String>,
    pub max_tokens: i32,
    pub temperature_milli: i32,
    pub timeout: u64,
    pub ollama_url: String,
    pub quiet: bool,
    pub verbose: bool,
    pub export: Option<String>,
}

/// Whether `s` starts with `prefix`, compared character by character.
pub fn str_starts_with(s: &str, prefix: &str) -> (r: bool)
    ensures
        r == prefix@.is_prefix_of(s@),
{
    let n = prefix.unicode_len();
    let m = s.unicode_len();
    if n > m {
        return false;
    }
    let mut i: usize = 0;
    while i < n
        invariant
            n == prefix@.len(),
            m == s@.len(),
            n <= m,
            0 <= i <= n,
            forall|j: int| 0 <= j < i ==> s@[j] == prefix@[j],
        decreases n - i,
    {
        if s.get_char(i) != prefix.get_char(i) {
            proof {
                assert(!prefix@.is_prefix_of(s@));
            }
            return false;
        }
        i += 1;
    }
    proof {
        assert(prefix@ =~= s@.subrange(0, n as int));
    }
    true
}

impl Cli {
    /// The first reason these arguments are unusable, if any: the checks
    /// run in a fixed order and the message of the first failing one is
    /// reported.
    pub open spec fn invalid_reason(self) -> Option<Seq<char>> {
        if self.iterations == 0 {
            Some("Iterations must be greater than 0"@)
        } else if self.iterations > 1000 {
            Some("Iterations must be 1000 or less"@)
        } else if self.temperature_milli < 0 || self.temperature_milli > 2000 {
            Some("Temperature must be between 0.0 and 2.0"@)
        } else if self.max_tokens <= 0 {
            Some("Max tokens must be greater than 0"@)
        } else if self.max_tokens > 4096 {
            Some("Max tokens must be 4096 or less"@)
        } else if self.timeout == 0 {
            Some("Timeout must be greater than 0"@)
        } else if self.models@.len() == 0 {
            Some("At least one model must be specified"@)
        } else if !("http://"@.is_prefix_of(self.ollama_url@)) && !("https://"@.is_prefix_of(
            self.ollama_url@,
        )) {
            Some("Ollama URL must start with http:// or https://"@)
        } else {
            None
        }
    }

    /// Checks the arguments: `Ok` exactly when every bound holds, and
    /// otherwise the message of the first failing check.
    pub fn validate(&self) -> (r: Result<(), String>)
        ensures
            r is Ok <==> self.invalid_reason() is None,
            r matches Err(m) ==> self.invalid_reason() == Some(m@),
    {
        if self.iterations == 0 {
            return Err(String::from_str("Iterations must be greater than 0"));
        }
        if self.iterations > 1000 {
            return Err(String::from_str("Iterations must be 1000 or less"));
        }
        if self.temperature_milli < 0 || self.temperature_milli > 2000 {
            return Err(String::from_str("Temperature must be between 0.0 and 2.0"));
        }
        if self.max_tokens <= 0 {
            return Err(String::from_str("Max tokens must be greater than 0"));
        }
        if self.max_tokens > 4096 {
            return Err(String::from_str("Max tokens must be 4096 or less"));
        }
        if self.timeout == 0 {
            return Err(String::from_str("Timeout must be greater than 0"));
        }
        if self.models.len() == 0 {
            return Err(String::from_str("At least one model must be specified"));
        }
        if !str_starts_with(self.ollama_url.as_str(), "http://") && !str_starts_with(
            self.ollama_url.as_str(),
            "https://",
        ) {
            return Err(String::from_str("Ollama URL must start with http:// or https://"));
        }
        Ok(())
    }

    /// The prompt to benchmark with: the user's, or the default.
    pub fn get_prompt(&self) -> (r: String)
        ensures
            r@ == match self.prompt {
                Some(p) => p@,
                None => DEFAULT_PROMPT@,
            },
    {
        match &self.prompt {
            Some(p) => p.clone(),
            None => DEFAULT_PROMPT.to_owned(),
        }
    }
}

} // verus!
