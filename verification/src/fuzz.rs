//! Fuzzing: generate an input, run every solution on it, and stop at the
//! first input on which the solutions disagree.
//!
//! The loop around [`fuzz`] has no bound of its own: as long as the
//! solutions agree it goes on. Whoever runs it has to be able to interrupt
//! it.

use vstd::prelude::*;
use vstd::string::*;
use crate::compare::{
    agree,
    are_solution_builds,
    fastest_time,
    first_divergence,
    mean_time,
    round_view,
    slowest_time,
    solution_builds,
    BuildRequest,
    ComparisonSession,
    Round,
    Verdict,
};
use crate::error::Error;
use crate::run::{RunResult, RunnableFile};

verus! {

/// What a fuzzing run is asked to do.
#[derive(Debug)]
pub struct FuzzArgs {
    /// The folder that holds the problems.
    pub problems_dir: String,
    /// The problem whose solutions are fuzzed.
    pub problem_name: String,
    /// The solutions, the pivot first.
    pub solution_files: Vec<RunnableFile>,
    /// The program that prints the inputs.
    pub generator: RunnableFile,
}

impl FuzzArgs {
    /// The builds of the solutions that the fuzzing run needs; see
    /// [`solution_builds`]. The generator is built anew for every input.
    pub fn builds(&self) -> (requests: Result<Vec<BuildRequest>, Error>)
        ensures
            match requests {
                Ok(requests) => self.solution_files@.len() >= 2 && are_solution_builds(
                    requests@,
                    self.solution_files@,
                ),
                Err(e) => self.solution_files@.len() < 2 && e == (Error::TooFewSolutions {
                    given: self.solution_files.len(),
                }),
            },
    {
        solution_builds(&self.solution_files)
    }
}

/// What to do with the input that was just generated and run.
#[derive(Clone, Copy, Debug, PartialEq, Eq, Structural)]
pub enum FuzzStep {
    /// The solutions agree: delete the generated input and go on.
    Discard {
        /// The number of this iteration, counted from 1.
        iteration: u64,
        /// Mean time across all solutions on this input, in nanoseconds.
        average: u64,
        /// The least cumulative time of a solution before this iteration.
        fastest_total: u128,
        /// The greatest cumulative time of a solution before this iteration.
        slowest_total: u128,
    },
    /// A solution differs from the pivot: keep the generated input as the
    /// counterexample, and stop.
    Retain {
        /// The number of this iteration, counted from 1.
        iteration: u64,
        /// Index of the first solution that differs.
        solution: usize,
        /// Time the pivot took, in nanoseconds.
        pivot_time: u64,
        /// Time the differing solution took, in nanoseconds.
        solution_time: u64,
    },
}

/// A lower-case hexadecimal digit.
pub open spec fn is_hex_digit(c: char) -> bool {
    ('0' as u32 <= c as u32 <= '9' as u32) || ('a' as u32 <= c as u32 <= 'f' as u32)
}

/// The hyphenated form of a UUID: 32 lower-case hexadecimal digits in groups
/// of 8, 4, 4, 4 and 12, with a hyphen between the groups.
pub open spec fn is_uuid_text(text: Seq<char>) -> bool {
    &&& text.len() == 36
    &&& forall|i: int|
        0 <= i < 36 ==> if i == 8 || i == 13 || i == 18 || i == 23 {
            #[trigger] text[i] == '-'
        } else {
            is_hex_digit(text[i])
        }
}

/// The name of a generated test: `generated_` and a UUID.
pub open spec fn is_generated_name(name: Seq<char>) -> bool {
    exists|id: Seq<char>| is_uuid_text(id) && name == "generated_"@ + id
}

/// A random UUID as text. Calls `uuid::Uuid::new_v4` and formats the result
/// with its `Display`, which writes the hyphenated lower-case form; the
/// contract states that form and nothing of the digits, which are random.
/// The call ends the process if the system has no random numbers to give.
#[verifier::external_body]
fn random_uuid() -> (text: String)
    ensures
        is_uuid_text(text@),
{
    uuid::Uuid::new_v4().to_string()
}

/// The name of the generated test with the identifier `id`.
pub fn generated_test_name(id: &str) -> (name: String)
    ensures
        name@ == "generated_"@ + id@,
{
    let mut name = String::from_str("generated_");
    name.append(id);
    name
}

/// A name for the next generated test, which no earlier test is likely to
/// have: `generated_` and a fresh random UUID.
pub fn fresh_test_name() -> (name: String)
    ensures
        is_generated_name(name@),
{
    let id = random_uuid();
    generated_test_name(id.as_str())
}

/// `step` is what the pivot rule asks for after `round`, when `before`
/// holds the rounds of the earlier iterations.
pub open spec fn is_fuzz_step(step: FuzzStep, before: Seq<Round>, round: Round) -> bool {
    match step {
        FuzzStep::Discard { iteration, average, fastest_total, slowest_total } => {
            &&& agree(round)
            &&& iteration == before.len() + 1
            &&& average == mean_time(round)
            &&& fastest_total == fastest_time(before, round.len() as int)
            &&& slowest_total == slowest_time(before, round.len() as int)
        },
        FuzzStep::Retain { iteration, solution, pivot_time, solution_time } => {
            &&& first_divergence(round, solution as int)
            &&& iteration == before.len() + 1
            &&& pivot_time == round[0].elapsed
            &&& solution_time == round[solution as int].elapsed
        },
    }
}

/// Decides one iteration of the fuzzing loop.
///
/// `results` holds the result of every solution on the input that was just
/// generated, in the order of the solutions. The iteration is recorded in
/// `session`. If all solutions agree with the pivot, the input is of no
/// further use and the loop goes on; at the first solution that differs the
/// input is the counterexample and the loop ends.
pub fn fuzz(session: &mut ComparisonSession, results: &Vec<RunResult>) -> (step: FuzzStep)
    requires
        results.len() == old(session).solutions(),
        old(session).rounds().len() < u64::MAX,
    ensures
        final(session).solutions() == old(session).solutions(),
        final(session).rounds() == old(session).rounds().push(round_view(results@)),
        is_fuzz_step(step, old(session).rounds(), round_view(results@)),
{
    let fastest_total = session.fastest_total();
    let slowest_total = session.slowest_total();
    let verdict = session.record(results);
    let iteration = session.total();
    match verdict {
        Verdict::Passed { average } => FuzzStep::Discard {
            iteration,
            average,
            fastest_total,
            slowest_total,
        },
        Verdict::Failed { solution, pivot_time, solution_time } => FuzzStep::Retain {
            iteration,
            solution,
            pivot_time,
            solution_time,
        },
    }
}

} // verus!
