//! The decisions of the probe loop. A driver asks `next_attempt` for the
//! index of the next attempt, prints `attempt_prefix`, connects, hands the
//! outcome to `settle_attempt` and carries out the plan it returns; after the
//! loop it prints `final_report`. On an interrupt it carries out `interrupted`.
use vstd::prelude::*;

use crate::cli::Cli;
use crate::error::{CODE_RUNTIME_ERROR, CODE_SUCCESS, Error, SourceError, joined, renders};
use crate::metrics::{Counts, Metrics, report_text};
use crate::text::{dec_str, push_decimal};
use crate::verbosity::Verbosity;

verus! {

/// What to do right after an attempt's outcome is known.
pub enum Reaction {
    /// Print nothing.
    Nothing,
    /// Print this line.
    Print(String),
    /// End the process at once with this status.
    Exit(i32),
}

/// What the driver does after an attempt, in order: react, then print the
/// report (if any), then pause (if asked) before the next attempt.
pub struct AttemptPlan {
    pub reaction: Reaction,
    pub report: Option<String>,
    pub pause: Option<u64>,
}

/// What the driver does on an external interrupt: print these lines, then
/// end the process with this status.
pub struct Farewell {
    pub lines: Vec<String>,
    pub code: i32,
}

/// After attempt `i`, more attempts remain: the run is unbounded
/// (`count == 0`) or `i` is below the count.
pub open spec fn more_remain(count: u32, i: u32) -> bool {
    count == 0 || i < count
}

/// The attempt index after `done` attempts, when one is still to be made.
/// The counters hold at most `u32::MAX` attempts, so an unbounded run stops
/// there.
pub open spec fn next_index(count: u32, done: u32) -> Option<u32> {
    if more_remain(count, done) && done < u32::MAX {
        Some((done + 1) as u32)
    } else {
        None
    }
}

/// `r` is the reaction to a successful attempt.
pub open spec fn reacts_to_success(r: Reaction, verbose: Verbosity, count: u32) -> bool {
    if verbose != Verbosity::Silent {
        r is Print && r->Print_0@ == "ok"@
    } else if count == 1 {
        r == Reaction::Exit(CODE_SUCCESS)
    } else {
        r is Nothing
    }
}

/// `r` is the reaction to a failed attempt whose error is `e`: normal and
/// verbose runs show the cause, quiet runs only say so, silent runs print
/// nothing and a silent single attempt ends the process with the
/// runtime-error status.
pub open spec fn reacts_to_failure(r: Reaction, e: &Error, verbose: Verbosity, count: u32) -> bool {
    if verbose != Verbosity::Silent {
        if verbose == Verbosity::Quiet {
            r is Print && r->Print_0@ == "failed"@
        } else {
            r is Print && exists|m: String|
                renders(e.spec_source(), m) && r->Print_0@ == "failed: "@ + joined(
                    e.spec_context(),
                    m@,
                )
        }
    } else if count == 1 {
        r == Reaction::Exit(CODE_RUNTIME_ERROR)
    } else {
        r is Nothing
    }
}

/// The index of the next attempt after `done` attempts, or `None` when the
/// run is over.
pub fn next_attempt(count: u32, done: u32) -> (r: Option<u32>)
    ensures
        r == next_index(count, done),
{
    if (count == 0 || done < count) && done < u32::MAX {
        Some(done + 1)
    } else {
        None
    }
}

/// The attempt number printed before attempt `i` (`"<i> "`), except in
/// silent runs and single-attempt runs.
pub fn attempt_prefix(cli: &Cli, i: u32) -> (r: Option<String>)
    ensures
        !cli.args.silent && cli.args.count != 1 ==> r is Some && r->Some_0@ == dec_str(i as nat)
            + " "@,
        cli.args.silent || cli.args.count == 1 ==> r is None,
{
    if !cli.args.silent && cli.args.count != 1 {
        let mut s = String::new();
        push_decimal(&mut s, i as u64);
        s.append(" ");
        assert(s@ =~= dec_str(i as nat) + " "@);
        Some(s)
    } else {
        None
    }
}

/// Counts the outcome of one connection attempt, and turns it into the
/// attempt's result: `Ok(true)` when it connected, else the I/O error.
pub fn record_connect(metrics: &mut Metrics, outcome: Result<(), std::io::Error>) -> (r: Result<
    bool,
    Error,
>)
    requires
        old(metrics).wf(),
        old(metrics).has_room(),
    ensures
        final(metrics)@ == old(metrics)@.recorded(outcome is Ok),
        final(metrics).wf(),
        match outcome {
            Ok(_) => r == Ok::<bool, Error>(true),
            Err(e) => r is Err && *r->Err_0.spec_source() == SourceError::Io(e)
                && r->Err_0.spec_context().len() == 0 && r->Err_0.spec_code() is None,
        },
{
    match outcome {
        Ok(_) => {
            metrics.record(true);
            Ok(true)
        },
        Err(e) => {
            metrics.record(false);
            Err(Error::new(SourceError::Io(e)))
        },
    }
}

/// What to print, or whether to end the process, once an attempt's result is
/// known.
pub fn handle_results(result: &Result<bool, Error>, verbose: Verbosity, count: u32) -> (r: Reaction)
    ensures
        match result {
            Ok(_) => reacts_to_success(r, verbose, count),
            Err(e) => reacts_to_failure(r, e, verbose, count),
        },
{
    match result {
        Ok(_) => {
            if verbose != Verbosity::Silent {
                Reaction::Print(String::from_str("ok"))
            } else if count == 1 {
                Reaction::Exit(CODE_SUCCESS)
            } else {
                Reaction::Nothing
            }
        },
        Err(e) => {
            if verbose != Verbosity::Silent {
                if verbose == Verbosity::Quiet {
                    Reaction::Print(String::from_str("failed"))
                } else {
                    let mut s = String::from_str("failed: ");
                    let m = e.to_string();
                    s.append(m.as_str());
                    Reaction::Print(s)
                }
            } else if count == 1 {
                Reaction::Exit(CODE_RUNTIME_ERROR)
            } else {
                Reaction::Nothing
            }
        },
    }
}

/// An intermediate report is due after attempt `i`: reports are asked for
/// every `report_interval` attempts, `i` is a multiple of it, and more
/// attempts remain (the last one is covered by the final report).
pub open spec fn report_due(cli: Cli, i: u32) -> bool {
    cli.args.report_interval > 0 && i % cli.args.report_interval == 0 && more_remain(
        cli.args.count,
        i,
    )
}

/// The intermediate report after attempt `i`, when one is due.
pub fn intermediate_report(cli: &Cli, metrics: &Metrics, i: u32) -> (r: Option<String>)
    ensures
        report_due(*cli, i) ==> r is Some && r->Some_0@ == "Intermediate report: "@ + report_text(
            metrics@,
        ),
        !report_due(*cli, i) ==> r is None,
{
    if cli.args.report_interval > 0 && i % cli.args.report_interval == 0 && (cli.args.count == 0
        || i < cli.args.count) {
        let mut s = String::from_str("Intermediate report: ");
        let rep = metrics.report();
        s.append(rep.as_str());
        Some(s)
    } else {
        None
    }
}

/// The pause in seconds after attempt `i`: the interval when more attempts
/// remain, none after the last.
pub fn pause_after(cli: &Cli, i: u32) -> (r: Option<u64>)
    ensures
        r == (if more_remain(cli.args.count, i) {
            Some(cli.args.interval)
        } else {
            None::<u64>
        }),
{
    if cli.args.count == 0 || i < cli.args.count {
        Some(cli.args.interval)
    } else {
        None
    }
}

/// Counts the outcome of attempt `i` and plans what follows it: the reaction
/// to its result, the intermediate report if one is due, and the pause if
/// more attempts remain.
pub fn settle_attempt(
    cli: &Cli,
    metrics: &mut Metrics,
    i: u32,
    outcome: Result<(), std::io::Error>,
) -> (r: AttemptPlan)
    requires
        old(metrics).wf(),
        old(metrics).has_room(),
    ensures
        final(metrics)@ == old(metrics)@.recorded(outcome is Ok),
        final(metrics).wf(),
        outcome is Ok ==> reacts_to_success(r.reaction, cli.mode_spec(), cli.args.count),
        outcome is Err ==> exists|e: Error|
            *e.spec_source() == SourceError::Io(outcome->Err_0) && e.spec_context().len() == 0
                && reacts_to_failure(r.reaction, &e, cli.mode_spec(), cli.args.count),
        report_due(*cli, i) ==> r.report is Some && r.report->Some_0@ == "Intermediate report: "@
            + report_text(final(metrics)@),
        !report_due(*cli, i) ==> r.report is None,
        r.pause == (if more_remain(cli.args.count, i) {
            Some(cli.args.interval)
        } else {
            None::<u64>
        }),
{
    let result = record_connect(metrics, outcome);
    let reaction = handle_results(&result, cli.mode(), cli.args.count);
    proof {
        if outcome is Err {
            assert(result is Err);
            let e = result->Err_0;
            assert(*e.spec_source() == SourceError::Io(outcome->Err_0));
        }
    }
    let report = intermediate_report(cli, metrics, i);
    let pause = pause_after(cli, i);
    AttemptPlan { reaction, report, pause }
}

/// The report after the loop; a single-attempt run gives none.
pub fn final_report(cli: &Cli, metrics: &Metrics) -> (r: Option<String>)
    ensures
        cli.args.count != 1 ==> r is Some && r->Some_0@ == report_text(metrics@),
        cli.args.count == 1 ==> r is None,
{
    if cli.args.count != 1 {
        Some(metrics.report())
    } else {
        None
    }
}

/// What an external interrupt does: a notice, the report of every attempt
/// counted so far, and a successful exit.
pub fn interrupted(metrics: &Metrics) -> (r: Farewell)
    ensures
        r.lines@.len() == 2,
        r.lines@[0]@ == "\nInterrupted! Generating report..."@,
        r.lines@[1]@ == report_text(metrics@),
        r.code == CODE_SUCCESS,
{
    let mut lines: Vec<String> = Vec::new();
    lines.push(String::from_str("\nInterrupted! Generating report..."));
    lines.push(metrics.report());
    Farewell { lines, code: CODE_SUCCESS }
}

} // verus!
