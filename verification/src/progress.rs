use std::io::Write;

use vstd::prelude::*;

use crate::config::PROGRESS_BAR_WIDTH;

verus! {

/// The notification sink a run reports to. Calls are fire-and-forget: no
/// implementation may fail the run, and none returns anything.
pub trait ProgressReporter {
    fn start_model(&mut self, model: &str, current: u32, total: u32);

    fn update_progress(&mut self, model: &str, current: u32, total: u32);

    fn complete_model(&mut self, model: &str);

    fn print_info(&mut self, message: &str);

    fn print_error(&mut self, message: &str);
}

/// Settings of the on-terminal progress display. The rendering itself is
/// terminal I/O and lives with the driver; the arithmetic it needs is
/// below.
#[derive(Debug, Clone, Copy)]
pub struct TerminalProgress {
    pub quiet: bool,
    pub verbose: bool,
}

impl TerminalProgress {
    pub fn new(quiet: bool, verbose: bool) -> (r: Self)
        ensures
            r.quiet == quiet,
            r.verbose == verbose,
    {
        TerminalProgress { quiet, verbose }
    }
}

/// The percentage shown next to the bar: completed over total, rounded
/// down, and zero when the total is zero.
pub fn progress_percentage(current: u32, total: u32) -> (r: u32)
    requires
        current <= total,
    ensures
        r == if total > 0 {
            (current as int * 100) / total as int
        } else {
            0int
        },
        r <= 100,
{
    if total > 0 {
        let pct: u64 = ((current as u64) * 100) / (total as u64);
        proof {
            vstd::arithmetic::div_mod::lemma_div_is_ordered(
                current as int * 100,
                total as int * 100,
                total as int,
            );
            vstd::arithmetic::div_mod::lemma_div_multiples_vanish(100, total as int);
            assert(current as int * 100 <= total as int * 100) by (nonlinear_arith)
                requires
                    current as int <= total as int,
            ;
        }
        pct as u32
    } else {
        0
    }
}

/// How many of the bar's cells are filled: completed over total, scaled to
/// the bar width, rounded down, and zero when the total is zero.
pub fn progress_filled_cells(current: u32, total: u32) -> (r: usize)
    requires
        current <= total,
    ensures
        r == if total > 0 {
            (PROGRESS_BAR_WIDTH * current as int) / total as int
        } else {
            0int
        },
        r <= PROGRESS_BAR_WIDTH,
{
    if total > 0 {
        let width: u64 = PROGRESS_BAR_WIDTH as u64;
        let cells: u64 = (width * (current as u64)) / (total as u64);
        proof {
            vstd::arithmetic::div_mod::lemma_div_is_ordered(
                PROGRESS_BAR_WIDTH as int * current as int,
                PROGRESS_BAR_WIDTH as int * total as int,
                total as int,
            );
            vstd::arithmetic::div_mod::lemma_div_multiples_vanish(
                PROGRESS_BAR_WIDTH as int,
                total as int,
            );
            assert(PROGRESS_BAR_WIDTH as int * current as int <= PROGRESS_BAR_WIDTH as int
                * total as int) by (nonlinear_arith)
                requires
                    current as int <= total as int,
                    PROGRESS_BAR_WIDTH as int >= 0,
            ;
        }
        cells as usize
    } else {
        0
    }
}

/// A sink that stays silent except for errors, which go to standard error.
pub struct QuietProgress;

impl ProgressReporter for QuietProgress {
    fn start_model(&mut self, model: &str, current: u32, total: u32) {
    }

    fn update_progress(&mut self, model: &str, current: u32, total: u32) {
    }

    fn complete_model(&mut self, model: &str) {
    }

    fn print_info(&mut self, message: &str) {
    }

    fn print_error(&mut self, message: &str) {
        write_error_line(message);
    }
}

/// Relies on std::io::Stderr: writes the message and a newline to standard
/// error, ignoring failure.
#[verifier::external_body]
fn write_error_line(message: &str) {
    let mut err = std::io::stderr();
    let _ = writeln!(err, "{}", message);
}

} // verus!
