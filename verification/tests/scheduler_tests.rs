use ollama_bench::benchmark::{Scheduler, SchedulerAction, SchedulerEvent};
use ollama_bench::error::BenchmarkError;
use ollama_bench::types::BenchmarkResult;

fn sample(model: &str, tps_milli: u64, ttft_ms: u64) -> BenchmarkResult {
    BenchmarkResult {
        model: model.to_string(),
        prompt: "p".to_string(),
        timestamp_ms: 0,
        success: true,
        tokens_per_second_milli: tps_milli,
        time_to_first_token_ms: ttft_ms,
        total_duration_ms: 500,
        prompt_tokens: 10,
        completion_tokens: 20,
        error: None,
    }
}

/// Drives a scheduler to its end, answering every question from the given
/// scripts, and returns the actions it emitted in order.
fn drive(
    mut s: Scheduler,
    health_ok: bool,
    known: &[bool],
    samples: &mut Vec<BenchmarkResult>,
) -> (Vec<SchedulerAction>, Scheduler) {
    let mut actions = Vec::new();
    let mut event = SchedulerEvent::Proceed;
    let mut checks = 0usize;
    loop {
        assert!(s.accepts(&event));
        let action = s.step(event);
        event = match &action {
            SchedulerAction::CheckHealth => {
                if health_ok {
                    SchedulerEvent::HealthPassed
                } else {
                    SchedulerEvent::HealthFailed(BenchmarkError::OllamaNotRunning)
                }
            }
            SchedulerAction::CheckModel { .. } => {
                let k = known[checks];
                checks += 1;
                SchedulerEvent::ModelKnown(k)
            }
            SchedulerAction::Generate { .. } => SchedulerEvent::SampleReady(samples.remove(0)),
            SchedulerAction::Finish | SchedulerAction::Fail(_) => {
                actions.push(action);
                return (actions, s);
            }
            _ => SchedulerEvent::Proceed,
        };
        actions.push(action);
    }
}

#[test]
fn test_preflight_unknown_model_aborts_run() {
    let s = Scheduler::new(vec!["known".to_string(), "missing".to_string()], 3);
    let mut samples = Vec::new();
    let (actions, end) = drive(s, true, &[true, false], &mut samples);

    match actions.last() {
        Some(SchedulerAction::Fail(BenchmarkError::ModelNotFound(m))) => {
            assert_eq!(m, "missing")
        }
        other => panic!("expected a ModelNotFound failure, got {:?}", other),
    }
    // no generation was requested and no sample was collected for either model
    assert!(!actions
        .iter()
        .any(|a| matches!(a, SchedulerAction::Generate { .. })));
    assert!(!actions
        .iter()
        .any(|a| matches!(a, SchedulerAction::Progress { .. })));
    assert_eq!(end.current_samples.len(), 0);
    assert_eq!(end.summaries.len(), 0);
}

#[test]
fn test_progress_events_per_model() {
    let s = Scheduler::new(vec!["m".to_string()], 5);
    let mut samples = vec![
        sample("m", 25_000, 200),
        sample("m", 30_000, 150),
        sample("m", 20_000, 250),
        sample("m", 28_000, 180),
        sample("m", 27_000, 190),
    ];
    let (actions, end) = drive(s, true, &[true], &mut samples);

    let progress: Vec<(u32, u32)> = actions
        .iter()
        .filter_map(|a| match a {
            SchedulerAction::Progress { current, total, .. } => Some((*current, *total)),
            _ => None,
        })
        .collect();
    // exactly five progress events, current counting 1 to 5, total always 5
    assert_eq!(progress, vec![(1, 5), (2, 5), (3, 5), (4, 5), (5, 5)]);

    let completes = actions
        .iter()
        .filter(|a| matches!(a, SchedulerAction::CompleteModel { .. }))
        .count();
    assert_eq!(completes, 1);
    // the complete event comes after every progress event
    let last_progress = actions
        .iter()
        .rposition(|a| matches!(a, SchedulerAction::Progress { .. }))
        .unwrap();
    let complete_pos = actions
        .iter()
        .position(|a| matches!(a, SchedulerAction::CompleteModel { .. }))
        .unwrap();
    assert!(complete_pos > last_progress);
    assert!(matches!(actions.last(), Some(SchedulerAction::Finish)));

    assert_eq!(end.summaries.len(), 1);
    let summary = &end.summaries[0];
    assert_eq!(summary.model, "m");
    assert_eq!(summary.total_tests, 5);
    assert_eq!(summary.successful_tests, 5);
    assert_eq!(summary.avg_tokens_per_second_milli, 26_000);
    assert_eq!(summary.min_tokens_per_second_milli, 20_000);
    assert_eq!(summary.max_tokens_per_second_milli, 30_000);
}

#[test]
fn test_health_failure_aborts_before_any_progress() {
    let s = Scheduler::new(vec!["m".to_string()], 5);
    let mut samples = Vec::new();
    let (actions, end) = drive(s, false, &[], &mut samples);

    // the run stops at the health check: one check, one failure, nothing else
    assert_eq!(actions.len(), 2);
    assert!(matches!(actions[0], SchedulerAction::CheckHealth));
    assert!(matches!(
        actions[1],
        SchedulerAction::Fail(BenchmarkError::OllamaNotRunning)
    ));
    assert_eq!(end.summaries.len(), 0);
    assert_eq!(end.current_samples.len(), 0);
}

#[test]
fn test_failed_sample_does_not_abort_run() {
    let s = Scheduler::new(vec!["m".to_string()], 3);
    let failed = BenchmarkResult {
        model: "m".to_string(),
        prompt: "p".to_string(),
        timestamp_ms: 0,
        success: false,
        tokens_per_second_milli: 0,
        time_to_first_token_ms: 0,
        total_duration_ms: 900,
        prompt_tokens: 0,
        completion_tokens: 0,
        error: Some("timeout".to_string()),
    };
    let mut samples = vec![sample("m", 25_000, 200), failed, sample("m", 35_000, 100)];
    let (actions, end) = drive(s, true, &[true], &mut samples);

    assert!(matches!(actions.last(), Some(SchedulerAction::Finish)));
    assert_eq!(end.summaries.len(), 1);
    assert_eq!(end.summaries[0].total_tests, 3);
    assert_eq!(end.summaries[0].successful_tests, 2);
    assert_eq!(end.summaries[0].avg_tokens_per_second_milli, 30_000);
}

#[test]
fn test_multi_model_order_and_pacing() {
    let s = Scheduler::new(vec!["a".to_string(), "b".to_string()], 2);
    let mut samples = vec![
        sample("a", 10_000, 100),
        sample("a", 20_000, 100),
        sample("b", 40_000, 100),
        sample("b", 50_000, 100),
    ];
    let (actions, end) = drive(s, true, &[true, true], &mut samples);

    // result order matches input order
    assert_eq!(end.summaries.len(), 2);
    assert_eq!(end.summaries[0].model, "a");
    assert_eq!(end.summaries[1].model, "b");
    assert_eq!(end.summaries[0].avg_tokens_per_second_milli, 15_000);
    assert_eq!(end.summaries[1].avg_tokens_per_second_milli, 45_000);

    // one iteration pause between the two iterations of each model, and one
    // model pause between the two models
    let iter_pauses = actions
        .iter()
        .filter(|a| matches!(a, SchedulerAction::PauseIteration))
        .count();
    let model_pauses = actions
        .iter()
        .filter(|a| matches!(a, SchedulerAction::PauseModel))
        .count();
    assert_eq!(iter_pauses, 2);
    assert_eq!(model_pauses, 1);

    // model starts carry 1-based positions
    let starts: Vec<(usize, u32, u32)> = actions
        .iter()
        .filter_map(|a| match a {
            SchedulerAction::StartModel { index, position, total } => {
                Some((*index, *position, *total))
            }
            _ => None,
        })
        .collect();
    assert_eq!(starts, vec![(0, 1, 2), (1, 2, 2)]);
}

#[test]
fn test_generate_hard_failure_aborts() {
    let mut s = Scheduler::new(vec!["m".to_string()], 2);
    assert!(matches!(
        s.step(SchedulerEvent::Proceed),
        SchedulerAction::CheckHealth
    ));
    assert!(matches!(
        s.step(SchedulerEvent::HealthPassed),
        SchedulerAction::ReportValidating
    ));
    assert!(matches!(
        s.step(SchedulerEvent::Proceed),
        SchedulerAction::CheckModel { index: 0 }
    ));
    assert!(matches!(
        s.step(SchedulerEvent::ModelKnown(true)),
        SchedulerAction::StartModel { index: 0, position: 1, total: 1 }
    ));
    assert!(matches!(
        s.step(SchedulerEvent::Proceed),
        SchedulerAction::Progress { current: 1, total: 2, .. }
    ));
    assert!(matches!(
        s.step(SchedulerEvent::Proceed),
        SchedulerAction::Generate { index: 0 }
    ));
    // the model disappeared between validation and use
    let action = s.step(SchedulerEvent::GenerateFailed(BenchmarkError::ModelNotFound(
        "m".to_string(),
    )));
    match action {
        SchedulerAction::Fail(BenchmarkError::ModelNotFound(m)) => assert_eq!(m, "m"),
        other => panic!("expected a ModelNotFound failure, got {:?}", other),
    }
    assert!(!s.accepts(&SchedulerEvent::Proceed));
    assert_eq!(s.summaries.len(), 0);
}

#[test]
fn test_empty_model_list_finishes_at_once() {
    let mut s = Scheduler::new(vec![], 5);
    assert!(matches!(
        s.step(SchedulerEvent::Proceed),
        SchedulerAction::CheckHealth
    ));
    assert!(matches!(
        s.step(SchedulerEvent::HealthPassed),
        SchedulerAction::ReportValidating
    ));
    assert!(matches!(s.step(SchedulerEvent::Proceed), SchedulerAction::Finish));
    assert_eq!(s.summaries.len(), 0);
}
