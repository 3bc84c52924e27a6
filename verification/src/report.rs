//! Result reporting: turn a size group's outcomes into the ordered lines the
//! operator sees, honouring the fail-only display mode. Lines are structured
//! values; the surrounding program turns them into coloured terminal text.

use vstd::prelude::*;

use crate::orchestrator::{all_passed, spec_all_passed, TrialOutcome};

verus! {

/// One line of the rendered report.
#[derive(Clone, Copy, Debug, PartialEq, Eq, Structural)]
pub enum ReportLine {
    /// The size group's banner, naming the payload size and the repetition
    /// count.
    Header { size: usize, reps: usize },
    /// One trial's line: its 1-based index, the payload size, and whether it
    /// passed.
    Trial { index: usize, size: usize, passed: bool },
    /// The confirmation printed in fail-only mode when the whole group
    /// passed.
    AllPassed,
}

/// The per-trial lines of a group report: one line per trial in order, except
/// that in fail-only mode passing trials are suppressed.
pub open spec fn trial_lines(outcomes: Seq<TrialOutcome>, fail_only: bool) -> Seq<ReportLine>
    decreases outcomes.len(),
{
    if outcomes.len() == 0 {
        Seq::empty()
    } else {
        let rest = trial_lines(outcomes.drop_last(), fail_only);
        let last = outcomes.last();
        if fail_only && last.passed {
            rest
        } else {
            rest.push(
                ReportLine::Trial {
                    index: outcomes.len() as usize,
                    size: last.size,
                    passed: last.passed,
                },
            )
        }
    }
}

/// The whole report of one size group: a header, the per-trial lines, and, in
/// fail-only mode when every trial passed, a single confirmation line.
pub open spec fn group_report(size: usize, outcomes: Seq<TrialOutcome>, fail_only: bool) -> Seq<
    ReportLine,
> {
    seq![ReportLine::Header { size, reps: outcomes.len() as usize }] + trial_lines(
        outcomes,
        fail_only,
    ) + if fail_only && spec_all_passed(outcomes) {
        seq![ReportLine::AllPassed]
    } else {
        Seq::<ReportLine>::empty()
    }
}

/// Render one size group's report lines.
pub fn report_group(size: usize, outcomes: &Vec<TrialOutcome>, fail_only: bool) -> (lines: Vec<
    ReportLine,
>)
    ensures
        lines@ == group_report(size, outcomes@, fail_only),
{
    let mut lines: Vec<ReportLine> = Vec::new();
    lines.push(ReportLine::Header { size, reps: outcomes.len() });
    proof {
        assert(outcomes@.take(0) =~= Seq::<TrialOutcome>::empty());
        assert(lines@ =~= seq![ReportLine::Header { size, reps: outcomes@.len() as usize }]
            + trial_lines(outcomes@.take(0), fail_only));
    }
    let mut i: usize = 0;
    while i < outcomes.len()
        invariant
            i <= outcomes@.len(),
            lines@ == seq![ReportLine::Header { size, reps: outcomes@.len() as usize }]
                + trial_lines(outcomes@.take(i as int), fail_only),
        decreases outcomes@.len() - i,
    {
        let oc = outcomes[i];
        proof {
            assert(outcomes@.take(i + 1).drop_last() =~= outcomes@.take(i as int));
            assert(outcomes@.take(i + 1).last() == outcomes@[i as int]);
        }
        if !(fail_only && oc.passed) {
            lines.push(ReportLine::Trial { index: i + 1, size: oc.size, passed: oc.passed });
        }
        i = i + 1;
    }
    proof {
        assert(outcomes@.take(outcomes@.len() as int) =~= outcomes@);
    }
    if fail_only && all_passed(outcomes) {
        lines.push(ReportLine::AllPassed);
    }
    proof {
        assert(lines@ =~= group_report(size, outcomes@, fail_only));
    }
    lines
}

/// With fail-only off, a group's report carries exactly one line per trial,
/// in trial order, each labelled with that trial's own outcome.
pub proof fn lemma_full_mode_lines(outcomes: Seq<TrialOutcome>)
    ensures
        trial_lines(outcomes, false).len() == outcomes.len(),
        forall|i: int|
            0 <= i < outcomes.len() ==> trial_lines(outcomes, false)[i] == (ReportLine::Trial {
                index: (i + 1) as usize,
                size: outcomes[i].size,
                passed: outcomes[i].passed,
            }),
    decreases outcomes.len(),
{
    if outcomes.len() > 0 {
        lemma_full_mode_lines(outcomes.drop_last());
    }
}

/// With fail-only off, the whole group report is the header followed by one
/// correctly labelled line per trial: `reps` trials give `reps + 1` lines.
pub proof fn lemma_full_mode_report(size: usize, outcomes: Seq<TrialOutcome>)
    ensures
        group_report(size, outcomes, false).len() == 1 + outcomes.len(),
        group_report(size, outcomes, false)[0] == (ReportLine::Header {
            size,
            reps: outcomes.len() as usize,
        }),
        forall|i: int|
            0 <= i < outcomes.len() ==> group_report(size, outcomes, false)[i + 1]
                == (ReportLine::Trial {
                index: (i + 1) as usize,
                size: outcomes[i].size,
                passed: outcomes[i].passed,
            }),
{
    lemma_full_mode_lines(outcomes);
}

/// In fail-only mode every passing trial is suppressed, so a group whose
/// trials all passed contributes no per-trial lines at all.
pub proof fn lemma_fail_only_suppresses_passes(outcomes: Seq<TrialOutcome>)
    requires
        spec_all_passed(outcomes),
    ensures
        trial_lines(outcomes, true) == Seq::<ReportLine>::empty(),
    decreases outcomes.len(),
{
    if outcomes.len() > 0 {
        assert(spec_all_passed(outcomes.drop_last()));
        lemma_fail_only_suppresses_passes(outcomes.drop_last());
    }
}

/// In fail-only mode, a group whose trials all passed is reported as exactly
/// two lines: the header and one all-passed confirmation.
pub proof fn lemma_fail_only_all_passed_report(size: usize, outcomes: Seq<TrialOutcome>)
    requires
        spec_all_passed(outcomes),
    ensures
        group_report(size, outcomes, true) == seq![
            ReportLine::Header { size, reps: outcomes.len() as usize },
            ReportLine::AllPassed,
        ],
{
    lemma_fail_only_suppresses_passes(outcomes);
    assert(group_report(size, outcomes, true) =~= seq![
        ReportLine::Header { size, reps: outcomes.len() as usize },
        ReportLine::AllPassed,
    ]);
}

} // verus!
