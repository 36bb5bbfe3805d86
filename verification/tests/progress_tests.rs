use ollama_bench::progress::{
    progress_filled_cells, progress_percentage, ProgressReporter, QuietProgress, TerminalProgress,
};

#[test]
fn test_terminal_progress_creation() {
    let progress = TerminalProgress::new(false, false);
    assert!(!progress.quiet);
    assert!(!progress.verbose);

    let quiet_progress = TerminalProgress::new(true, false);
    assert!(quiet_progress.quiet);
}

#[test]
fn test_quiet_progress() {
    let mut progress = QuietProgress;
    // These should not panic
    progress.start_model("test", 1, 1);
    progress.update_progress("test", 1, 1);
    progress.complete_model("test");
    progress.print_info("info");
    progress.print_error("error");
}

#[test]
fn test_progress_percentage() {
    assert_eq!(progress_percentage(0, 5), 0);
    assert_eq!(progress_percentage(1, 5), 20);
    assert_eq!(progress_percentage(2, 3), 66);
    assert_eq!(progress_percentage(5, 5), 100);
    assert_eq!(progress_percentage(0, 0), 0);
}

#[test]
fn test_progress_filled_cells() {
    assert_eq!(progress_filled_cells(0, 5), 0);
    assert_eq!(progress_filled_cells(1, 2), 16);
    assert_eq!(progress_filled_cells(5, 5), 32);
    assert_eq!(progress_filled_cells(0, 0), 0);
}
