use vstd::prelude::*;
use vstd::string::StrSliceExecFns;
use vstd::string::StringExecFns;

verus! {

/// The run-aborting and recoverable faults of a benchmark run.
#[derive(Debug, Clone)]
pub enum BenchmarkError {
    OllamaNotRunning,
    ModelNotFound(String),
    NetworkTimeout(u64),
    InvalidModel(String),
    ConnectionFailed(String),
    ParseError(String),
    IoError(String),
    ConfigError(String),
}

/// The decimal digits of `n`, most significant first.
pub open spec fn dec_digits(n: nat) -> Seq<char>
    decreases n,
{
    if n < 10 {
        seq![digit_char(n)]
    } else {
        dec_digits(n / 10).push(digit_char(n % 10))
    }
}

/// The character for one decimal digit.
pub open spec fn digit_char(d: nat) -> char {
    seq!['0', '1', '2', '3', '4', '5', '6', '7', '8', '9'][d as int]
}

fn digit_str(d: u64) -> (r: &'static str)
    requires
        d < 10,
    ensures
        r@ == seq![digit_char(d as nat)],
{
    let r: &'static str = match d {
        0 => "0",
        1 => "1",
        2 => "2",
        3 => "3",
        4 => "4",
        5 => "5",
        6 => "6",
        7 => "7",
        8 => "8",
        _ => "9",
    };
    proof {
        reveal_strlit("0");
        reveal_strlit("1");
        reveal_strlit("2");
        reveal_strlit("3");
        reveal_strlit("4");
        reveal_strlit("5");
        reveal_strlit("6");
        reveal_strlit("7");
        reveal_strlit("8");
        reveal_strlit("9");
        assert(r@ =~= seq![digit_char(d as nat)]);
    }
    r
}

/// Renders `n` in decimal, without padding or sign.
pub fn u64_to_dec_string(n: u64) -> (r: String)
    ensures
        r@ == dec_digits(n as nat),
    decreases n,
{
    if n < 10 {
        String::from_str(digit_str(n))
    } else {
        let mut s = u64_to_dec_string(n / 10);
        s.append(digit_str(n % 10));
        proof {
            assert(s@ =~= dec_digits(n as nat));
        }
        s
    }
}

impl BenchmarkError {
    /// The human-readable description of the error, one diagnosis line and
    /// one suggestion line.
    pub fn message(&self) -> (r: String)
        ensures
            r@ == self.message_spec(),
    {
        match self {
            BenchmarkError::OllamaNotRunning => {
                String::from_str("❌ Ollama is not running\n💡 Start with: ollama serve")
            },
            BenchmarkError::ModelNotFound(model) => {
                let mut s = String::from_str("❌ Model '");
                s.append(model.as_str());
                s.append("' not found\n💡 Install with: ollama pull ");
                s.append(model.as_str());
                s
            },
            BenchmarkError::NetworkTimeout(seconds) => {
                let mut s = String::from_str("❌ Network timeout after ");
                let digits = u64_to_dec_string(*seconds);
                s.append(digits.as_str());
                s.append("s\n💡 Try increasing --timeout");
                s
            },
            BenchmarkError::InvalidModel(model) => {
                let mut s = String::from_str("❌ Invalid model name: '");
                s.append(model.as_str());
                s.append(
                    "'\n💡 Model names should be in format: model:tag (e.g., llama2:7b)",
                );
                s
            },
            BenchmarkError::ConnectionFailed(url) => {
                let mut s = String::from_str("❌ Failed to connect to Ollama at ");
                s.append(url.as_str());
                s.append("\n💡 Check if Ollama is running and accessible");
                s
            },
            BenchmarkError::ParseError(msg) => {
                let mut s = String::from_str("❌ Failed to parse response: ");
                s.append(msg.as_str());
                s.append(
                    "\n💡 This might be a compatibility issue with your Ollama version",
                );
                s
            },
            BenchmarkError::IoError(msg) => {
                let mut s = String::from_str("❌ I/O error: ");
                s.append(msg.as_str());
                s.append("\n💡 Check file permissions and disk space");
                s
            },
            BenchmarkError::ConfigError(msg) => {
                let mut s = String::from_str("❌ Configuration error: ");
                s.append(msg.as_str());
                s.append("\n💡 ");
                s.append(msg.as_str());
                s
            },
        }
    }

    /// What `message` returns, variant by variant.
    pub open spec fn message_spec(self) -> Seq<char> {
        match self {
            BenchmarkError::OllamaNotRunning => {
                "❌ Ollama is not running\n💡 Start with: ollama serve"@
            },
            BenchmarkError::ModelNotFound(model) => {
                "❌ Model '"@ + model@ + "' not found\n💡 Install with: ollama pull "@
                    + model@
            },
            BenchmarkError::NetworkTimeout(seconds) => {
                "❌ Network timeout after "@ + dec_digits(seconds as nat)
                    + "s\n💡 Try increasing --timeout"@
            },
            BenchmarkError::InvalidModel(model) => {
                "❌ Invalid model name: '"@ + model@
                    + "'\n💡 Model names should be in format: model:tag (e.g., llama2:7b)"@
            },
            BenchmarkError::ConnectionFailed(url) => {
                "❌ Failed to connect to Ollama at "@ + url@
                    + "\n💡 Check if Ollama is running and accessible"@
            },
            BenchmarkError::ParseError(msg) => {
                "❌ Failed to parse response: "@ + msg@
                    + "\n💡 This might be a compatibility issue with your Ollama version"@
            },
            BenchmarkError::IoError(msg) => {
                "❌ I/O error: "@ + msg@ + "\n💡 Check file permissions and disk space"@
            },
            BenchmarkError::ConfigError(msg) => {
                "❌ Configuration error: "@ + msg@ + "\n💡 "@ + msg@
            },
        }
    }
}

/// Classifies a transport-level failure the way the run treats it: a refused
/// connection means the server is not running at all, a timeout is reported
/// with the default timeout value, and anything else is a connection failure
/// carrying the transport's own description.
pub fn transport_error(is_connect: bool, is_timeout: bool, detail: String) -> (r: BenchmarkError)
    ensures
        is_connect ==> r == BenchmarkError::OllamaNotRunning,
        !is_connect && is_timeout ==> r == BenchmarkError::NetworkTimeout(30u64),
        !is_connect && !is_timeout ==> (r matches BenchmarkError::ConnectionFailed(d)
            && d@ == detail@),
{
    if is_connect {
        BenchmarkError::OllamaNotRunning
    } else if is_timeout {
        BenchmarkError::NetworkTimeout(30)
    } else {
        BenchmarkError::ConnectionFailed(detail)
    }
}

/// Whether a failed generation response escalates to a hard "model not
/// found" error: an HTTP 404, or a body that mentions the model.
pub fn is_model_missing_response(status: u16, body_mentions_model: bool) -> (r: bool)
    ensures
        r == (status == 404 || body_mentions_model),
{
    status == 404 || body_mentions_model
}

/// What the Unicode tables say of `char::is_alphanumeric`.
pub uninterp spec fn unicode_alphanumeric(c: char) -> bool;

/// Whether `c` is an ASCII letter or digit.
pub open spec fn ascii_alphanumeric(c: char) -> bool {
    ('a' <= c && c <= 'z') || ('A' <= c && c <= 'Z') || ('0' <= c && c <= '9')
}

/// Relies on char::is_alphanumeric: true exactly for the Unicode letter and
/// number categories; on the ASCII range those are the ASCII letters and
/// digits.
#[verifier::external_body]
fn char_alphanumeric(c: char) -> (r: bool)
    ensures
        r == unicode_alphanumeric(c),
        (c as u32) < 128 ==> r == ascii_alphanumeric(c),
{
    c.is_alphanumeric()
}

/// The characters a model name may hold.
pub open spec fn valid_model_char(c: char) -> bool {
    unicode_alphanumeric(c) || c == ':' || c == '-' || c == '_' || c == '.'
}

/// Whether `s` is a well-formed model name: non-empty, made of alphanumeric
/// characters, colons, hyphens, underscores and dots.
pub open spec fn valid_model_name(s: Seq<char>) -> bool {
    s.len() > 0 && (forall|i: int| 0 <= i < s.len() ==> valid_model_char(#[trigger] s[i]))
}

/// Checks a model name before it is sent anywhere: an empty name or one with
/// a character outside the allowed set is rejected as `InvalidModel`.
pub fn validate_model_name(model: &str) -> (r: Result<(), BenchmarkError>)
    ensures
        r is Ok <==> valid_model_name(model@),
        model@.len() == 0 ==> (r matches Err(e) && e matches BenchmarkError::InvalidModel(m)
            && m@ == "empty model name"@),
        model@.len() > 0 && !valid_model_name(model@) ==> (r matches Err(e)
            && e matches BenchmarkError::InvalidModel(m) && m@ == model@),
{
    let n = model.unicode_len();
    if n == 0 {
        return Err(BenchmarkError::InvalidModel(String::from_str("empty model name")));
    }
    let mut i: usize = 0;
    while i < n
        invariant
            n == model@.len(),
            0 <= i <= n,
            forall|j: int| 0 <= j < i ==> valid_model_char(#[trigger] model@[j]),
        decreases n - i,
    {
        let c = model.get_char(i);
        if !(char_alphanumeric(c) || c == ':' || c == '-' || c == '_' || c == '.') {
            return Err(BenchmarkError::InvalidModel(model.to_owned()));
        }
        i += 1;
    }
    Ok(())
}

} // verus!
