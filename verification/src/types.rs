use vstd::prelude::*;
use vstd::arithmetic::div_mod::{
    lemma_div_is_ordered, lemma_div_multiples_vanish, lemma_fundamental_div_mod,
    lemma_fundamental_div_mod_converse_div, lemma_mod_division_less_than_divisor,
};

use crate::config::{
    DEFAULT_ITERATIONS, DEFAULT_MAX_TOKENS, DEFAULT_OLLAMA_BASE_URL, DEFAULT_PROMPT,
    DEFAULT_TEMPERATURE_MILLI, DEFAULT_TIMEOUT_SECONDS,
};

verus! {

/// The outcome of one generation request against one model.
///
/// Throughput is kept in thousandths of a token per second, so that the
/// statistics below stay exact integers (27_500 stands for 27.5 tok/s).
#[derive(Debug, Clone)]
pub struct BenchmarkResult {
    pub model: String,
    pub prompt: String,
    /// When the request was issued, in milliseconds since the Unix epoch.
    pub timestamp_ms: u64,
    pub success: bool,
    pub tokens_per_second_milli: u64,
    pub time_to_first_token_ms: u64,
    pub total_duration_ms: u64,
    pub prompt_tokens: u32,
    pub completion_tokens: u32,
    pub error: Option<String>,
}

impl BenchmarkResult {
    /// A failed attempt carries no metrics, and an error message is present
    /// exactly on failure.
    pub open spec fn wf(self) -> bool {
        &&& !self.success ==> self.tokens_per_second_milli == 0
            && self.time_to_first_token_ms == 0
        &&& self.success <==> self.error is None
    }
}

/// Clips a non-negative value to what a `u64` can hold.
pub open spec fn sat_u64(x: int) -> int {
    if x > u64::MAX as int {
        u64::MAX as int
    } else {
        x
    }
}

/// How many of the samples succeeded.
pub open spec fn succ_count(rs: Seq<BenchmarkResult>) -> nat
    decreases rs.len(),
{
    if rs.len() == 0 {
        0
    } else {
        succ_count(rs.drop_last()) + if rs.last().success {
            1nat
        } else {
            0nat
        }
    }
}

/// The sum of throughput (in thousandths) over the successful samples.
pub open spec fn succ_tps_sum(rs: Seq<BenchmarkResult>) -> nat
    decreases rs.len(),
{
    if rs.len() == 0 {
        0
    } else {
        succ_tps_sum(rs.drop_last()) + if rs.last().success {
            rs.last().tokens_per_second_milli as nat
        } else {
            0nat
        }
    }
}

/// The sum of time-to-first-token (in milliseconds) over the successful
/// samples.
pub open spec fn succ_ttft_sum(rs: Seq<BenchmarkResult>) -> nat
    decreases rs.len(),
{
    if rs.len() == 0 {
        0
    } else {
        succ_ttft_sum(rs.drop_last()) + if rs.last().success {
            rs.last().time_to_first_token_ms as nat
        } else {
            0nat
        }
    }
}

/// The least throughput among the successful samples, and zero when none
/// succeeded: the empty fold is normalised explicitly rather than through an
/// infinite sentinel.
pub open spec fn succ_tps_min(rs: Seq<BenchmarkResult>) -> nat
    decreases rs.len(),
{
    if rs.len() == 0 {
        0
    } else {
        let rest = succ_tps_min(rs.drop_last());
        if !rs.last().success {
            rest
        } else if succ_count(rs.drop_last()) == 0 {
            rs.last().tokens_per_second_milli as nat
        } else if (rs.last().tokens_per_second_milli as nat) < rest {
            rs.last().tokens_per_second_milli as nat
        } else {
            rest
        }
    }
}

/// The greatest throughput among the successful samples, zero when none
/// succeeded.
pub open spec fn succ_tps_max(rs: Seq<BenchmarkResult>) -> nat
    decreases rs.len(),
{
    if rs.len() == 0 {
        0
    } else {
        let rest = succ_tps_max(rs.drop_last());
        if !rs.last().success {
            rest
        } else if succ_count(rs.drop_last()) == 0 {
            rs.last().tokens_per_second_milli as nat
        } else if (rs.last().tokens_per_second_milli as nat) > rest {
            rs.last().tokens_per_second_milli as nat
        } else {
            rest
        }
    }
}

/// Aggregated statistics over all samples of one model.
///
/// All throughput fields are in thousandths of a token per second, and the
/// average time to first token is in thousandths of a millisecond, so every
/// field is an exact integer.
#[derive(Debug, Clone)]
pub struct ModelSummary {
    pub model: String,
    pub total_tests: u64,
    pub successful_tests: u64,
    pub avg_tokens_per_second_milli: u64,
    pub min_tokens_per_second_milli: u64,
    pub max_tokens_per_second_milli: u64,
    pub avg_ttft_ms_milli: u64,
}

/// What it means for `s` to aggregate the samples `rs` of the model named
/// `model`: counts, floor-averages over the successful subset, and the
/// explicit zero normalisation when nothing succeeded.
pub open spec fn is_summary_of(s: ModelSummary, model: Seq<char>, rs: Seq<BenchmarkResult>) -> bool {
    &&& s.model@ == model
    &&& s.total_tests == rs.len()
    &&& s.successful_tests == succ_count(rs)
    &&& s.avg_tokens_per_second_milli == if succ_count(rs) == 0 {
        0int
    } else {
        succ_tps_sum(rs) as int / succ_count(rs) as int
    }
    &&& s.min_tokens_per_second_milli == succ_tps_min(rs)
    &&& s.max_tokens_per_second_milli == succ_tps_max(rs)
    &&& s.avg_ttft_ms_milli == if succ_count(rs) == 0 {
        0int
    } else {
        sat_u64((succ_ttft_sum(rs) * 1000) as int / succ_count(rs) as int)
    }
}

impl ModelSummary {
    /// No summary counts more successes than tests; a summary with no
    /// successes has every statistic zeroed; one with successes keeps its
    /// average between its minimum and its maximum.
    pub open spec fn wf(self) -> bool {
        &&& self.successful_tests <= self.total_tests
        &&& self.successful_tests == 0 ==> self.avg_tokens_per_second_milli == 0
            && self.min_tokens_per_second_milli == 0 && self.max_tokens_per_second_milli == 0
            && self.avg_ttft_ms_milli == 0
        &&& self.successful_tests > 0 ==> self.min_tokens_per_second_milli
            <= self.avg_tokens_per_second_milli <= self.max_tokens_per_second_milli
    }

    /// The success rate in thousandths, rounded down: successes over total
    /// tests, and zero for an empty summary.
    pub fn success_rate_permille(&self) -> (r: u64)
        requires
            self.successful_tests <= self.total_tests,
        ensures
            r == if self.total_tests == 0 {
                0int
            } else {
                (self.successful_tests * 1000) as int / self.total_tests as int
            },
            r <= 1000,
    {
        if self.total_tests == 0 {
            0
        } else {
            let scaled: u128 = (self.successful_tests as u128) * 1000;
            let r128: u128 = scaled / (self.total_tests as u128);
            proof {
                lemma_div_is_ordered(
                    self.successful_tests * 1000,
                    self.total_tests * 1000,
                    self.total_tests as int,
                );
                lemma_div_multiples_vanish(1000, self.total_tests as int);
            }
            r128 as u64
        }
    }

    /// Reduces one model's samples to its summary. Total over any sequence,
    /// including the empty one: failures count toward the total only, and
    /// with no successful sample every statistic is zero rather than a
    /// division artefact.
    pub fn from_results(model: String, results: &Vec<BenchmarkResult>) -> (r: ModelSummary)
        ensures
            is_summary_of(r, model@, results@),
            r.wf(),
            r.total_tests == results@.len(),
            r.successful_tests == 0 ==> r.avg_tokens_per_second_milli == 0
                && r.min_tokens_per_second_milli == 0 && r.max_tokens_per_second_milli == 0
                && r.avg_ttft_ms_milli == 0,
            r.successful_tests > 0 ==> r.min_tokens_per_second_milli
                <= r.avg_tokens_per_second_milli <= r.max_tokens_per_second_milli,
    {
        let ghost rs = results@;
        let n = results.len();
        let mut i: usize = 0;
        let mut succ: u64 = 0;
        let mut sum_tps: u128 = 0;
        let mut sum_ttft: u128 = 0;
        let mut min_tps: u64 = 0;
        let mut max_tps: u64 = 0;
        while i < n
            invariant
                n == rs.len(),
                rs == results@,
                0 <= i <= n,
                succ == succ_count(rs.take(i as int)),
                succ <= i,
                sum_tps == succ_tps_sum(rs.take(i as int)),
                sum_ttft == succ_ttft_sum(rs.take(i as int)),
                min_tps == succ_tps_min(rs.take(i as int)),
                max_tps == succ_tps_max(rs.take(i as int)),
                sum_tps <= succ as int * u64::MAX as int,
                sum_ttft <= succ as int * u64::MAX as int,
                succ as int * min_tps as int <= sum_tps as int,
                sum_tps as int <= succ as int * max_tps as int,
                succ == 0 ==> min_tps == 0 && max_tps == 0,
            decreases n - i,
        {
            let r = &results[i];
            proof {
                assert(rs.take(i as int + 1).drop_last() =~= rs.take(i as int));
                assert(rs.take(i as int + 1).last() == rs[i as int]);
            }
            if r.success {
                let tps = r.tokens_per_second_milli;
                let ttft = r.time_to_first_token_ms;
                proof {
                    assert(sum_tps + tps <= (succ as int + 1) * u64::MAX as int) by (nonlinear_arith)
                        requires
                            sum_tps <= succ as int * u64::MAX as int,
                            tps <= u64::MAX as int,
                    ;
                    assert(sum_ttft + ttft <= (succ as int + 1) * u64::MAX as int)
                        by (nonlinear_arith)
                        requires
                            sum_ttft <= succ as int * u64::MAX as int,
                            ttft <= u64::MAX as int,
                    ;
                    assert(((succ as int + 1) * (u64::MAX as int)) < 0x100000000000000000000000000000000int)
                        by (nonlinear_arith)
                        requires
                            0 <= succ as int <= 0xffffffffffffffffint,
                    ;
                }
                if succ == 0 {
                    min_tps = tps;
                    max_tps = tps;
                } else {
                    proof {
                        let s = succ as int;
                        let m = min_tps as int;
                        let x = max_tps as int;
                        let t = tps as int;
                        assert(t < m ==> s * m + t >= (s + 1) * t) by (nonlinear_arith)
                            requires
                                s >= 0,
                                s * m <= sum_tps as int || true,
                        ;
                        assert(t >= m ==> s * m + t >= (s + 1) * m) by (nonlinear_arith)
                            requires
                                s >= 0,
                        ;
                        assert(t > x ==> s * x + t <= (s + 1) * t) by (nonlinear_arith)
                            requires
                                s >= 0,
                        ;
                        assert(t <= x ==> s * x + t <= (s + 1) * x) by (nonlinear_arith)
                            requires
                                s >= 0,
                        ;
                    }
                    if tps < min_tps {
                        min_tps = tps;
                    }
                    if tps > max_tps {
                        max_tps = tps;
                    }
                }
                succ = succ + 1;
                sum_tps = sum_tps + tps as u128;
                sum_ttft = sum_ttft + ttft as u128;
            }
            i += 1;
        }
        proof {
            assert(rs.take(n as int) =~= rs);
        }
        let avg_tps: u64 = if succ == 0 {
            0
        } else {
            proof {
                lemma_div_is_ordered(
                    succ as int * min_tps as int,
                    sum_tps as int,
                    succ as int,
                );
                lemma_div_is_ordered(
                    sum_tps as int,
                    succ as int * max_tps as int,
                    succ as int,
                );
                lemma_div_multiples_vanish(min_tps as int, succ as int);
                lemma_div_multiples_vanish(max_tps as int, succ as int);
            }
            (sum_tps / (succ as u128)) as u64
        };
        let avg_ttft: u64 = if succ == 0 {
            0
        } else {
            let q: u128 = sum_ttft / (succ as u128);
            let rem: u128 = sum_ttft % (succ as u128);
            proof {
                lemma_div_is_ordered(
                    sum_ttft as int,
                    succ as int * u64::MAX as int,
                    succ as int,
                );
                lemma_div_multiples_vanish(u64::MAX as int, succ as int);
                lemma_fundamental_div_mod(sum_ttft as int, succ as int);
                lemma_mod_division_less_than_divisor(sum_ttft as int, succ as int);
                lemma_fundamental_div_mod(rem as int * 1000, succ as int);
                lemma_mod_division_less_than_divisor(rem as int * 1000, succ as int);
                // floor((s * 1000) / k) splits into the whole part and the
                // scaled remainder
                assert(sum_ttft as int * 1000 == (q as int * 1000 + (rem as int * 1000) / (
                succ as int)) * succ as int + (rem as int * 1000) % (succ as int))
                    by (nonlinear_arith)
                    requires
                        sum_ttft as int == q as int * succ as int + rem as int,
                        rem as int * 1000 == ((rem as int * 1000) / (succ as int)) * succ as int + (
                        rem as int * 1000) % (succ as int),
                ;
                lemma_fundamental_div_mod_converse_div(
                    sum_ttft as int * 1000,
                    succ as int,
                    q as int * 1000 + (rem as int * 1000) / (succ as int),
                    (rem as int * 1000) % (succ as int),
                );
                lemma_div_is_ordered(rem as int * 1000, succ as int * 1000, succ as int);
                lemma_div_multiples_vanish(1000, succ as int);
            }
            let scaled: u128 = q * 1000 + (rem * 1000) / (succ as u128);
            if scaled > u64::MAX as u128 {
                u64::MAX
            } else {
                scaled as u64
            }
        };
        ModelSummary {
            model,
            total_tests: n as u64,
            successful_tests: succ,
            avg_tokens_per_second_milli: avg_tps,
            min_tokens_per_second_milli: min_tps,
            max_tokens_per_second_milli: max_tps,
            avg_ttft_ms_milli: avg_ttft,
        }
    }
}

/// Immutable input to one benchmark run.
#[derive(Debug, Clone)]
pub struct BenchmarkConfig {
    pub iterations: u32,
    pub prompt: String,
    /// Sampling temperature in thousandths (700 stands for 0.7).
    pub temperature_milli: i32,
    pub max_tokens: i32,
    pub timeout_seconds: u64,
    pub ollama_base_url: String,
}

impl Default for BenchmarkConfig {
    fn default() -> (r: Self)
        ensures
            r.iterations == DEFAULT_ITERATIONS,
            r.prompt@ == DEFAULT_PROMPT@,
            r.temperature_milli == DEFAULT_TEMPERATURE_MILLI,
            r.max_tokens == DEFAULT_MAX_TOKENS,
            r.timeout_seconds == DEFAULT_TIMEOUT_SECONDS,
            r.ollama_base_url@ == DEFAULT_OLLAMA_BASE_URL@,
    {
        BenchmarkConfig {
            iterations: DEFAULT_ITERATIONS,
            prompt: DEFAULT_PROMPT.to_owned(),
            temperature_milli: DEFAULT_TEMPERATURE_MILLI,
            max_tokens: DEFAULT_MAX_TOKENS,
            timeout_seconds: DEFAULT_TIMEOUT_SECONDS,
            ollama_base_url: DEFAULT_OLLAMA_BASE_URL.to_owned(),
        }
    }
}

/// Where a run stands, for progress display.
#[derive(Debug, Clone)]
pub struct BenchmarkProgress {
    pub current_model: String,
    pub current_iteration: u32,
    pub total_iterations: u32,
    pub models_completed: u32,
    pub total_models: u32,
}

/// Sampling options sent with a generation request, with the temperature in
/// thousandths (700 stands for 0.7).
#[derive(Debug, Clone)]
pub struct OllamaOptions {
    pub temperature_milli: Option<i32>,
    pub num_predict: Option<i32>,
    pub stop: Option<Vec<String>>,
}

/// One generation request to the server.
#[derive(Debug, Clone)]
pub struct OllamaGenerateRequest {
    pub model: String,
    pub prompt: String,
    pub stream: bool,
    pub options: Option<OllamaOptions>,
}

/// The request one benchmark iteration sends: non-streaming, with the
/// configured temperature and token cap.
pub fn generate_request(model: &str, prompt: &str, config: &BenchmarkConfig) -> (r:
    OllamaGenerateRequest)
    ensures
        r.model@ == model@,
        r.prompt@ == prompt@,
        !r.stream,
        r.options matches Some(o) && o.temperature_milli == Some(config.temperature_milli)
            && o.num_predict == Some(config.max_tokens) && o.stop is None,
{
    OllamaGenerateRequest {
        model: model.to_owned(),
        prompt: prompt.to_owned(),
        stream: false,
        options: Some(
            OllamaOptions {
                temperature_milli: Some(config.temperature_milli),
                num_predict: Some(config.max_tokens),
                stop: None,
            },
        ),
    }
}

/// One generation response of the server, with its timing report.
#[derive(Debug, Clone)]
pub struct OllamaGenerateResponse {
    pub model: String,
    pub created_at: String,
    pub response: String,
    pub done: bool,
    pub context: Option<Vec<i32>>,
    pub total_duration: Option<i64>,
    pub load_duration: Option<i64>,
    pub prompt_eval_count: Option<i32>,
    pub prompt_eval_duration: Option<i64>,
    pub eval_count: Option<i32>,
    pub eval_duration: Option<i64>,
}

/// One entry of the server's model list.
#[derive(Debug, Clone)]
pub struct OllamaModel {
    pub name: String,
    pub modified_at: String,
    pub size: i64,
    pub digest: String,
}

/// The server's model list.
#[derive(Debug, Clone)]
pub struct OllamaModelsList {
    pub models: Vec<OllamaModel>,
}

/// The approximate time to first token: the server-reported prompt
/// evaluation time, converted from nanoseconds to milliseconds, and zero
/// when the server did not report it.
pub open spec fn ttft_ms_of(prompt_eval_duration_ns: int) -> int {
    if prompt_eval_duration_ns > 0 {
        prompt_eval_duration_ns / 1_000_000
    } else {
        0
    }
}

/// Throughput in thousandths of a token per second: completion tokens per
/// second of generation wall time, and zero when either report is missing.
pub open spec fn tps_milli_of(eval_count: int, eval_duration_ns: int) -> int {
    if eval_duration_ns > 0 && eval_count > 0 {
        sat_u64((eval_count * 1_000_000_000_000) / eval_duration_ns)
    } else {
        0
    }
}

/// Builds the failed sample that a broken request leaves behind: metrics
/// zeroed, the elapsed wall time kept, and the diagnostic recorded.
pub fn failed_sample(
    model: &str,
    prompt: &str,
    timestamp_ms: u64,
    total_duration_ms: u64,
    error: String,
) -> (r: BenchmarkResult)
    ensures
        r.wf(),
        r.model@ == model@,
        r.prompt@ == prompt@,
        r.timestamp_ms == timestamp_ms,
        !r.success,
        r.tokens_per_second_milli == 0,
        r.time_to_first_token_ms == 0,
        r.total_duration_ms == total_duration_ms,
        r.prompt_tokens == 0,
        r.completion_tokens == 0,
        r.error matches Some(e) && e@ == error@,
{
    BenchmarkResult {
        model: model.to_owned(),
        prompt: prompt.to_owned(),
        timestamp_ms,
        success: false,
        tokens_per_second_milli: 0,
        time_to_first_token_ms: 0,
        total_duration_ms,
        prompt_tokens: 0,
        completion_tokens: 0,
        error: Some(error),
    }
}

/// Derives the successful sample from the server's own timing report, per
/// the formulas above. Token counts the server left out or misreported as
/// negative are recorded as zero.
pub fn sample_from_response(
    model: &str,
    prompt: &str,
    timestamp_ms: u64,
    total_duration_ms: u64,
    resp: &OllamaGenerateResponse,
) -> (r: BenchmarkResult)
    ensures
        r.wf(),
        r.model@ == model@,
        r.prompt@ == prompt@,
        r.timestamp_ms == timestamp_ms,
        r.success,
        r.total_duration_ms == total_duration_ms,
        r.error is None,
        r.time_to_first_token_ms == ttft_ms_of(
            match resp.prompt_eval_duration {
                Some(d) => d as int,
                None => 0,
            },
        ),
        r.tokens_per_second_milli == tps_milli_of(
            match resp.eval_count {
                Some(c) => c as int,
                None => 0,
            },
            match resp.eval_duration {
                Some(d) => d as int,
                None => 0,
            },
        ),
        r.prompt_tokens == (match resp.prompt_eval_count {
            Some(c) => if c > 0 {
                c as int
            } else {
                0
            },
            None => 0,
        }),
        r.completion_tokens == (match resp.eval_count {
            Some(c) => if c > 0 {
                c as int
            } else {
                0
            },
            None => 0,
        }),
{
    let ped: i64 = match resp.prompt_eval_duration {
        Some(d) => d,
        None => 0,
    };
    let ed: i64 = match resp.eval_duration {
        Some(d) => d,
        None => 0,
    };
    let pec: i32 = match resp.prompt_eval_count {
        Some(c) => c,
        None => 0,
    };
    let ec: i32 = match resp.eval_count {
        Some(c) => c,
        None => 0,
    };
    let time_to_first_token_ms: u64 = if ped > 0 {
        (ped as u64) / 1_000_000
    } else {
        0
    };
    let tokens_per_second_milli: u64 = if ed > 0 && ec > 0 {
        let v: u128 = ((ec as u128) * 1_000_000_000_000) / (ed as u128);
        if v > u64::MAX as u128 {
            u64::MAX
        } else {
            v as u64
        }
    } else {
        0
    };
    BenchmarkResult {
        model: model.to_owned(),
        prompt: prompt.to_owned(),
        timestamp_ms,
        success: true,
        tokens_per_second_milli,
        time_to_first_token_ms,
        total_duration_ms,
        prompt_tokens: if pec > 0 {
            pec as u32
        } else {
            0
        },
        completion_tokens: if ec > 0 {
            ec as u32
        } else {
            0
        },
        error: None,
    }
}

/// Whether `name` occurs in `models`.
pub open spec fn name_listed(models: Seq<String>, name: Seq<char>) -> bool {
    exists|j: int| 0 <= j < models.len() && #[trigger] models[j]@ == name
}

/// Whether `name` is one of the server's models.
pub fn model_known(models: &Vec<String>, name: &String) -> (r: bool)
    ensures
        r == name_listed(models@, name@),
{
    let n = models.len();
    let mut i: usize = 0;
    while i < n
        invariant
            n == models.len(),
            0 <= i <= n,
            forall|j: int| 0 <= j < i ==> #[trigger] models@[j]@ != name@,
        decreases n - i,
    {
        if models[i].eq(name) {
            return true;
        }
        i += 1;
    }
    false
}

} // verus!
