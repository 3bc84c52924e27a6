//! Trial orchestration: iterate the configured payload sizes in order, run
//! the configured number of trials per size with freshly drawn random
//! payloads, and collect per-trial outcomes for the reporter.

use vstd::prelude::*;

use crate::engine::run_trial;
use crate::payload::random_data;
use crate::port::Port;

verus! {

/// The immutable test configuration, constructed once before testing begins.
pub struct TestConfiguration {
    /// The negotiated symbol rate, kept for the setup layer that configures
    /// the device; the engine's timing budget reads the rate back from the
    /// device itself.
    pub baud: u64,
    /// Suppress output for passing trials.
    pub fail_only: bool,
    /// The number of trials per payload size.
    pub reps: usize,
    /// The payload sizes to test, in the given order.
    pub sizes: Vec<usize>,
}

impl TestConfiguration {
    /// Well-formed: at least one repetition per size group. A size of zero is
    /// legal and degenerates to an always-passing trial.
    pub open spec fn wf(&self) -> bool {
        self.reps >= 1
    }

    /// Assemble a configuration; refused exactly when the repetition count is
    /// not positive.
    pub fn new(baud: u64, fail_only: bool, reps: usize, sizes: Vec<usize>) -> (r: Option<
        TestConfiguration,
    >)
        ensures
            r is Some <==> reps >= 1,
            r matches Some(c) ==> {
                &&& c.baud == baud
                &&& c.fail_only == fail_only
                &&& c.reps == reps
                &&& c.sizes@ == sizes@
                &&& c.wf()
            },
    {
        if reps >= 1 {
            Some(TestConfiguration { baud, fail_only, reps, sizes })
        } else {
            None
        }
    }
}

/// One trial's result: the payload size used and whether the received bytes
/// matched the sent bytes exactly.
#[derive(Clone, Copy, Debug, PartialEq, Eq, Structural)]
pub struct TrialOutcome {
    pub size: usize,
    pub passed: bool,
}

/// The outcomes of one size group, in trial order.
pub struct SizeGroupResult {
    pub size: usize,
    pub outcomes: Vec<TrialOutcome>,
}

/// The derived group summary: every trial in the group passed.
pub open spec fn spec_all_passed(outcomes: Seq<TrialOutcome>) -> bool {
    forall|i: int| 0 <= i < outcomes.len() ==> outcomes[i].passed
}

/// Reduce a size group's outcomes with logical AND.
pub fn all_passed(outcomes: &Vec<TrialOutcome>) -> (r: bool)
    ensures
        r == spec_all_passed(outcomes@),
{
    let mut i: usize = 0;
    while i < outcomes.len()
        invariant
            i <= outcomes@.len(),
            forall|j: int| 0 <= j < i ==> outcomes@[j].passed,
        decreases outcomes@.len() - i,
    {
        if !outcomes[i].passed {
            return false;
        }
        i = i + 1;
    }
    true
}

/// Run `reps` trials of the given payload size, each with a freshly drawn
/// random payload, strictly in sequence. A size of zero always passes.
pub fn run_size_group<P: Port>(port: &mut P, size: usize, reps: usize) -> (outcomes: Vec<
    TrialOutcome,
>)
    ensures
        outcomes@.len() == reps,
        forall|i: int| 0 <= i < reps ==> outcomes@[i].size == size,
        size == 0 ==> spec_all_passed(outcomes@),
{
    let mut outcomes: Vec<TrialOutcome> = Vec::new();
    let mut i: usize = 0;
    while i < reps
        invariant
            i <= reps,
            outcomes@.len() == i,
            forall|k: int| 0 <= k < i ==> outcomes@[k].size == size,
            size == 0 ==> spec_all_passed(outcomes@),
        decreases reps - i,
    {
        let wdata = random_data(size);
        let passed = run_trial(port, &wdata);
        outcomes.push(TrialOutcome { size, passed });
        i = i + 1;
    }
    outcomes
}

/// Run every configured size group in declaration order and collect the
/// per-size results for the reporter.
pub fn run_suite<P: Port>(port: &mut P, config: &TestConfiguration) -> (results: Vec<
    SizeGroupResult,
>)
    requires
        config.wf(),
    ensures
        results@.len() == config.sizes@.len(),
        forall|g: int|
            0 <= g < results@.len() ==> {
                &&& results@[g].size == config.sizes@[g]
                &&& results@[g].outcomes@.len() == config.reps
                &&& forall|i: int|
                    0 <= i < config.reps ==> results@[g].outcomes@[i].size == config.sizes@[g]
                &&& config.sizes@[g] == 0 ==> spec_all_passed(results@[g].outcomes@)
            },
{
    let mut results: Vec<SizeGroupResult> = Vec::new();
    let mut g: usize = 0;
    while g < config.sizes.len()
        invariant
            g <= config.sizes@.len(),
            results@.len() == g,
            forall|h: int|
                0 <= h < g ==> {
                    &&& results@[h].size == config.sizes@[h]
                    &&& results@[h].outcomes@.len() == config.reps
                    &&& forall|i: int|
                        0 <= i < config.reps ==> results@[h].outcomes@[i].size == config.sizes@[h]
                    &&& config.sizes@[h] == 0 ==> spec_all_passed(results@[h].outcomes@)
                },
        decreases config.sizes@.len() - g,
    {
        let size = config.sizes[g];
        let outcomes = run_size_group(port, size, config.reps);
        results.push(SizeGroupResult { size, outcomes });
        g = g + 1;
    }
    results
}

} // verus!
