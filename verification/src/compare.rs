//! Differential comparison of two or more solutions over a set of tests.
//!
//! The first solution is the pivot: every other solution is compared with
//! it, never with each other, and the first one that differs decides.

use vstd::prelude::*;
use vstd::arithmetic::div_mod::*;
use vstd::string::*;
use crate::error::Error;
use crate::run::{relative_path, RunResult, RunView, RunnableFile};
use crate::util::{decimal, lemma_decimal_injective, push_decimal};

verus! {

/// The results of every solution on one test input, the pivot first.
pub type Round = Seq<RunView>;

/// The view of a slice of results.
pub open spec fn round_view(results: Seq<RunResult>) -> Round {
    results.map_values(|r: RunResult| r@)
}

/// Every solution printed exactly what the pivot printed.
pub open spec fn agree(round: Round) -> bool {
    forall|j: int| 0 <= j < round.len() ==> (#[trigger] round[j]).output == round[0].output
}

/// Solution `k` is the first one whose output differs from the pivot's.
pub open spec fn first_divergence(round: Round, k: int) -> bool {
    &&& 1 <= k < round.len()
    &&& round[k].output != round[0].output
    &&& forall|j: int| 0 <= j < k ==> (#[trigger] round[j]).output == round[0].output
}

/// The time all solutions of a round took together.
pub open spec fn time_sum(round: Round) -> nat
    decreases round.len(),
{
    if round.len() == 0 {
        0
    } else {
        time_sum(round.drop_last()) + round.last().elapsed as nat
    }
}

/// The mean time of a round's solutions, rounded down to a nanosecond.
pub open spec fn mean_time(round: Round) -> nat {
    if round.len() == 0 {
        0
    } else {
        time_sum(round) / round.len()
    }
}

/// The outcome of one test case.
#[derive(Clone, Copy, Debug, PartialEq, Eq, Structural)]
pub enum Verdict {
    /// All solutions agree with the pivot.
    Passed {
        /// Mean time across all solutions, in nanoseconds.
        average: u64,
    },
    /// A solution differs from the pivot; later solutions were not looked at.
    Failed {
        /// Index of the first solution that differs.
        solution: usize,
        /// Time the pivot took, in nanoseconds.
        pivot_time: u64,
        /// Time the differing solution took, in nanoseconds.
        solution_time: u64,
    },
}

/// `verdict` is the outcome that the pivot rule gives `round`.
pub open spec fn is_verdict(round: Round, verdict: Verdict) -> bool {
    match verdict {
        Verdict::Passed { average } => agree(round) && average == mean_time(round),
        Verdict::Failed { solution, pivot_time, solution_time } => {
            &&& first_divergence(round, solution as int)
            &&& pivot_time == round[0].elapsed
            &&& solution_time == round[solution as int].elapsed
        },
    }
}

/// Applies the pivot rule to the results of one test case.
pub fn judge(results: &Vec<RunResult>) -> (verdict: Verdict)
    ensures
        is_verdict(round_view(results@), verdict),
{
    let ghost round = round_view(results@);
    let n: usize = results.len();
    if n == 0 {
        return Verdict::Passed { average: 0 };
    }
    let mut sum: u128 = results[0].elapsed_time as u128;
    assert(round.take(1).drop_last() =~= Seq::<RunView>::empty());
    assert(time_sum(round.take(1).drop_last()) == 0);
    let mut i: usize = 1;
    while i < n
        invariant
            1 <= i <= n,
            n == results.len(),
            round == round_view(results@),
            forall|j: int| 0 <= j < i ==> (#[trigger] round[j]).output == round[0].output,
            sum == time_sum(round.take(i as int)),
            sum <= i * u64::MAX,
        decreases n - i,
    {
        if results[i].output != results[0].output {
            return Verdict::Failed {
                solution: i,
                pivot_time: results[0].elapsed_time,
                solution_time: results[i].elapsed_time,
            };
        }
        proof {
            assert(round.take(i + 1).drop_last() =~= round.take(i as int));
            assert(round.take(i + 1).last() == round[i as int]);
        }
        sum = sum + results[i].elapsed_time as u128;
        i = i + 1;
    }
    proof {
        assert(round.take(n as int) =~= round);
        lemma_div_is_ordered(sum as int, n * u64::MAX, n as int);
        lemma_div_multiples_vanish(u64::MAX as int, n as int);
    }
    let average: u64 = (sum / (n as u128)) as u64;
    Verdict::Passed { average }
}

/// How many of `rounds` pass under the pivot rule.
pub open spec fn passed_rounds(rounds: Seq<Round>) -> nat
    decreases rounds.len(),
{
    if rounds.len() == 0 {
        0
    } else {
        passed_rounds(rounds.drop_last()) + if agree(rounds.last()) {
            1nat
        } else {
            0nat
        }
    }
}

/// The time that solution `i` took over all of `rounds`.
pub open spec fn solution_time(rounds: Seq<Round>, i: int) -> nat
    decreases rounds.len(),
{
    if rounds.len() == 0 {
        0
    } else {
        solution_time(rounds.drop_last(), i) + rounds.last()[i].elapsed as nat
    }
}

/// No more rounds pass than were run.
pub proof fn lemma_passed_bound(rounds: Seq<Round>)
    ensures
        passed_rounds(rounds) <= rounds.len(),
    decreases rounds.len(),
{
    if rounds.len() > 0 {
        lemma_passed_bound(rounds.drop_last());
    }
}

/// A solution's cumulative time is at most the number of rounds times the
/// longest time a run can report.
pub proof fn lemma_solution_time_bound(rounds: Seq<Round>, i: int)
    ensures
        solution_time(rounds, i) <= rounds.len() * u64::MAX,
    decreases rounds.len(),
{
    if rounds.len() > 0 {
        lemma_solution_time_bound(rounds.drop_last(), i);
    }
}

/// The least cumulative time over `rounds` among the first `solutions`
/// solutions.
pub open spec fn fastest_time(rounds: Seq<Round>, solutions: int) -> nat
    decreases solutions,
{
    if solutions <= 1 {
        solution_time(rounds, 0)
    } else {
        let rest = fastest_time(rounds, solutions - 1);
        let last = solution_time(rounds, solutions - 1);
        if last < rest {
            last
        } else {
            rest
        }
    }
}

/// The greatest cumulative time over `rounds` among the first `solutions`
/// solutions.
pub open spec fn slowest_time(rounds: Seq<Round>, solutions: int) -> nat
    decreases solutions,
{
    if solutions <= 1 {
        solution_time(rounds, 0)
    } else {
        let rest = slowest_time(rounds, solutions - 1);
        let last = solution_time(rounds, solutions - 1);
        if last > rest {
            last
        } else {
            rest
        }
    }
}

/// The fastest and the slowest cumulative times are the times of two of the
/// solutions, and every solution's time lies between them.
pub proof fn lemma_extreme_times(rounds: Seq<Round>, solutions: int)
    requires
        solutions >= 1,
    ensures
        exists|i: int|
            0 <= i < solutions && fastest_time(rounds, solutions) == #[trigger] solution_time(
                rounds,
                i,
            ),
        exists|i: int|
            0 <= i < solutions && slowest_time(rounds, solutions) == #[trigger] solution_time(
                rounds,
                i,
            ),
        forall|i: int|
            0 <= i < solutions ==> fastest_time(rounds, solutions) <= #[trigger] solution_time(
                rounds,
                i,
            ) <= slowest_time(rounds, solutions),
    decreases solutions,
{
    if solutions > 1 {
        lemma_extreme_times(rounds, solutions - 1);
        let f = choose|i: int|
            0 <= i < solutions - 1 && fastest_time(rounds, solutions - 1)
                == #[trigger] solution_time(rounds, i);
        let s = choose|i: int|
            0 <= i < solutions - 1 && slowest_time(rounds, solutions - 1)
                == #[trigger] solution_time(rounds, i);
        let last = solution_time(rounds, solutions - 1);
        if last < fastest_time(rounds, solutions - 1) {
            assert(fastest_time(rounds, solutions) == solution_time(rounds, solutions - 1));
        } else {
            assert(fastest_time(rounds, solutions) == solution_time(rounds, f));
        }
        if last > slowest_time(rounds, solutions - 1) {
            assert(slowest_time(rounds, solutions) == solution_time(rounds, solutions - 1));
        } else {
            assert(slowest_time(rounds, solutions) == solution_time(rounds, s));
        }
    } else {
        assert(fastest_time(rounds, solutions) == solution_time(rounds, 0));
        assert(slowest_time(rounds, solutions) == solution_time(rounds, 0));
    }
}

/// Solutions that behave alike pass every test: if in each round all
/// solutions printed the same, then as many rounds pass as there are.
pub proof fn lemma_identical_solutions_pass(rounds: Seq<Round>)
    requires
        forall|r: int, i: int, j: int|
            #![trigger rounds[r][i], rounds[r][j]]
            0 <= r < rounds.len() && 0 <= i < rounds[r].len() && 0 <= j < rounds[r].len()
                ==> rounds[r][i].output == rounds[r][j].output,
    ensures
        passed_rounds(rounds) == rounds.len(),
    decreases rounds.len(),
{
    if rounds.len() > 0 {
        let front = rounds.drop_last();
        assert forall|r: int, i: int, j: int|
            #![trigger front[r][i], front[r][j]]
            0 <= r < front.len() && 0 <= i < front[r].len() && 0 <= j < front[r].len()
                implies front[r][i].output == front[r][j].output by {
            assert(rounds[r][i].output == rounds[r][j].output);
        }
        lemma_identical_solutions_pass(front);
        let last = rounds.last();
        assert(agree(last)) by {
            assert forall|j: int| 0 <= j < last.len() implies (#[trigger] last[j]).output
                == last[0].output by {
                assert(rounds[rounds.len() - 1][j].output == rounds[rounds.len() - 1][0].output);
            }
        }
    }
}

/// A round in which some solution printed something else than the pivot
/// fails, whatever the solutions after it printed, and does not count as
/// passed.
pub proof fn lemma_divergent_round_fails(rounds: Seq<Round>, round: Round, k: int, verdict: Verdict)
    requires
        0 <= k < round.len(),
        round[k].output != round[0].output,
        is_verdict(round, verdict),
    ensures
        verdict is Failed,
        verdict->solution <= k,
        passed_rounds(rounds.push(round)) == passed_rounds(rounds),
{
    assert(rounds.push(round).drop_last() =~= rounds);
    assert(!agree(round)) by {
        if agree(round) {
            assert(round[k].output == round[0].output);
        }
    }
    if verdict->solution > k {
        assert(round[k].output == round[0].output);
    }
}

/// The running aggregate of one comparison: which rounds it has seen, how
/// many of them passed, and how long each solution has run in total.
pub struct ComparisonSession {
    passed: u64,
    total: u64,
    total_times: Vec<u128>,
    rounds: Ghost<Seq<Round>>,
}

impl ComparisonSession {
    /// The number of solutions under comparison.
    pub closed spec fn spec_solutions(&self) -> usize {
        self.total_times@.len() as usize
    }

    /// The rounds recorded so far, oldest first.
    pub closed spec fn rounds(&self) -> Seq<Round> {
        self.rounds@
    }

    #[verifier::type_invariant]
    spec fn well_formed(&self) -> bool {
        &&& self.total_times@.len() >= 2
        &&& self.total == self.rounds@.len()
        &&& self.passed == passed_rounds(self.rounds@)
        &&& forall|r: int|
            0 <= r < self.rounds@.len() ==> (#[trigger] self.rounds@[r]).len()
                == self.total_times@.len()
        &&& forall|i: int|
            0 <= i < self.total_times@.len() ==> #[trigger] self.total_times@[i] == solution_time(
                self.rounds@,
                i,
            )
    }

    /// The number of solutions under comparison: at least two.
    #[verifier::when_used_as_spec(spec_solutions)]
    pub fn solutions(&self) -> (n: usize)
        ensures
            n == self.solutions(),
            n >= 2,
    {
        proof {
            use_type_invariant(self);
        }
        self.total_times.len()
    }

    /// A session for `solutions` solutions that has seen no test case yet.
    /// A comparison needs two solutions at least.
    pub fn new(solutions: usize) -> (session: Result<ComparisonSession, Error>)
        ensures
            match session {
                Ok(session) => {
                    &&& solutions >= 2
                    &&& session.solutions() == solutions
                    &&& session.rounds() == Seq::<Round>::empty()
                },
                Err(e) => solutions < 2 && e == (Error::TooFewSolutions { given: solutions }),
            },
    {
        if solutions < 2 {
            return Err(Error::TooFewSolutions { given: solutions });
        }
        let mut total_times: Vec<u128> = Vec::new();
        let mut i: usize = 0;
        while i < solutions
            invariant
                0 <= i <= solutions,
                total_times@.len() == i,
                forall|k: int| 0 <= k < i ==> #[trigger] total_times@[k] == 0,
            decreases solutions - i,
        {
            total_times.push(0);
            i = i + 1;
        }
        Ok(ComparisonSession { passed: 0, total: 0, total_times, rounds: Ghost(Seq::empty()) })
    }

    /// The time each solution has taken over all test cases, in nanoseconds.
    pub fn total_times(&self) -> (times: Vec<u128>)
        ensures
            times@.len() == self.solutions(),
            forall|i: int|
                0 <= i < times@.len() ==> #[trigger] times@[i] == solution_time(self.rounds(), i),
    {
        proof {
            use_type_invariant(self);
        }
        let n: usize = self.total_times.len();
        let mut times: Vec<u128> = Vec::new();
        let mut i: usize = 0;
        while i < n
            invariant
                0 <= i <= n,
                n == self.total_times@.len(),
                times@.len() == i,
                forall|k: int| 0 <= k < i ==> #[trigger] times@[k] == self.total_times@[k],
            decreases n - i,
        {
            times.push(self.total_times[i]);
            i = i + 1;
        }
        times
    }

    /// The least of the solutions' cumulative times.
    pub fn fastest_total(&self) -> (least: u128)
        ensures
            least == fastest_time(self.rounds(), self.solutions() as int),
    {
        proof {
            use_type_invariant(self);
        }
        let n: usize = self.total_times.len();
        let mut least: u128 = self.total_times[0];
        let mut i: usize = 1;
        while i < n
            invariant
                1 <= i <= n,
                n == self.total_times@.len(),
                forall|k: int|
                    0 <= k < n ==> #[trigger] self.total_times@[k] == solution_time(
                        self.rounds@,
                        k,
                    ),
                least == fastest_time(self.rounds@, i as int),
            decreases n - i,
        {
            if self.total_times[i] < least {
                least = self.total_times[i];
            }
            i = i + 1;
        }
        least
    }

    /// The greatest of the solutions' cumulative times.
    pub fn slowest_total(&self) -> (greatest: u128)
        ensures
            greatest == slowest_time(self.rounds(), self.solutions() as int),
    {
        proof {
            use_type_invariant(self);
        }
        let n: usize = self.total_times.len();
        let mut greatest: u128 = self.total_times[0];
        let mut i: usize = 1;
        while i < n
            invariant
                1 <= i <= n,
                n == self.total_times@.len(),
                forall|k: int|
                    0 <= k < n ==> #[trigger] self.total_times@[k] == solution_time(
                        self.rounds@,
                        k,
                    ),
                greatest == slowest_time(self.rounds@, i as int),
            decreases n - i,
        {
            if self.total_times[i] > greatest {
                greatest = self.total_times[i];
            }
            i = i + 1;
        }
        greatest
    }

    /// Number of test cases seen so far.
    pub fn total(&self) -> (n: u64)
        ensures
            n == self.rounds().len(),
    {
        proof {
            use_type_invariant(self);
        }
        self.total
    }

    /// Number of test cases on which all solutions agreed.
    pub fn passed(&self) -> (n: u64)
        ensures
            n == passed_rounds(self.rounds()),
    {
        proof {
            use_type_invariant(self);
        }
        self.passed
    }

    /// Records the results of one test case, one result per solution in the
    /// order of the solutions, and returns the verdict on it.
    pub fn record(&mut self, results: &Vec<RunResult>) -> (verdict: Verdict)
        requires
            results.len() == old(self).solutions(),
            old(self).rounds().len() < u64::MAX,
        ensures
            final(self).solutions() == old(self).solutions(),
            final(self).rounds() == old(self).rounds().push(round_view(results@)),
            is_verdict(round_view(results@), verdict),
    {
        proof {
            use_type_invariant(&*self);
        }
        let ghost round = round_view(results@);
        let ghost before = self.rounds@;
        let ghost after = before.push(round);
        let verdict = judge(results);
        let n: usize = self.total_times.len();
        let mut times: Vec<u128> = Vec::new();
        let mut i: usize = 0;
        while i < n
            invariant
                0 <= i <= n,
                n == self.total_times@.len(),
                n == results.len(),
                round == round_view(results@),
                before == self.rounds@,
                after == before.push(round),
                before.len() < u64::MAX,
                times@.len() == i,
                forall|k: int|
                    0 <= k < n ==> #[trigger] self.total_times@[k] == solution_time(before, k),
                forall|k: int| 0 <= k < i ==> #[trigger] times@[k] == solution_time(after, k),
            decreases n - i,
        {
            proof {
                lemma_solution_time_bound(before, i as int);
                assert(after.drop_last() =~= before);
                assert(after.last() == round);
                assert(round[i as int].elapsed == results@[i as int].elapsed_time);
            }
            times.push(self.total_times[i] + results[i].elapsed_time as u128);
            i = i + 1;
        }
        proof {
            assert(after.drop_last() =~= before);
            assert(after.last() == round);
            lemma_passed_bound(before);
        }
        let passed: u64 = match verdict {
            Verdict::Passed { .. } => self.passed + 1,
            Verdict::Failed { .. } => self.passed,
        };
        *self = ComparisonSession {
            passed,
            total: self.total + 1,
            total_times: times,
            rounds: Ghost(after),
        };
        verdict
    }
}

/// What a comparison is asked to do.
#[derive(Debug)]
pub struct CompareArgs {
    /// The folder that holds the problems.
    pub problems_dir: String,
    /// The problem whose solutions are compared.
    pub problem_name: String,
    /// The solutions, the pivot first.
    pub solution_files: Vec<RunnableFile>,
}

/// The outcome of a comparison over a set of test cases.
#[derive(Clone, Debug, PartialEq, Eq)]
pub struct CompareReport {
    /// The verdict on each test case, in the order of the test cases.
    pub verdicts: Vec<Verdict>,
    /// How many test cases passed.
    pub passed: u64,
    /// How many test cases there were.
    pub total: u64,
    /// The time each solution took over all test cases, in nanoseconds.
    pub total_times: Vec<u128>,
}

/// The views of the rounds of a comparison.
pub open spec fn rounds_view(rounds: Seq<Vec<RunResult>>) -> Seq<Round> {
    rounds.map_values(|results: Vec<RunResult>| round_view(results@))
}

/// `report` is the report on `rounds` for `solutions` solutions.
pub open spec fn reports(report: CompareReport, solutions: int, rounds: Seq<Round>) -> bool {
    &&& report.verdicts@.len() == rounds.len()
    &&& forall|r: int|
        0 <= r < rounds.len() ==> is_verdict(#[trigger] rounds[r], report.verdicts@[r])
    &&& report.passed == passed_rounds(rounds)
    &&& report.total == rounds.len()
    &&& report.total_times@.len() == solutions
    &&& forall|i: int|
        0 <= i < solutions ==> #[trigger] report.total_times@[i] == solution_time(rounds, i)
}

/// Where the compiled artifact of the solution with index `i` goes:
/// `solutions/solution_<i>.out`, relative to the problem's folder.
pub open spec fn artifact_name(i: nat) -> Seq<char> {
    "solutions/solution_"@ + decimal(i) + ".out"@
}

/// No two solutions of one comparison share an artifact: different indices
/// give different paths.
pub proof fn lemma_artifacts_distinct(i: nat, j: nat)
    requires
        i != j,
    ensures
        artifact_name(i) != artifact_name(j),
{
    if artifact_name(i) == artifact_name(j) {
        let head = "solutions/solution_"@;
        let tail = ".out"@;
        let a = artifact_name(i);
        let b = artifact_name(j);
        assert(a.len() == head.len() + decimal(i).len() + tail.len());
        assert(b.len() == head.len() + decimal(j).len() + tail.len());
        assert(a.subrange(head.len() as int, (head.len() + decimal(i).len()) as int) =~= decimal(
            i,
        ));
        assert(b.subrange(head.len() as int, (head.len() + decimal(j).len()) as int) =~= decimal(
            j,
        ));
        lemma_decimal_injective(i, j);
    }
}

/// What it takes to build the command of one solution: where its source
/// lies, where its artifact goes, and what `@script_file` stands for. All
/// paths are relative to the problem's folder.
#[derive(Clone, Debug, PartialEq, Eq)]
pub struct BuildRequest {
    /// The path of the source file.
    pub source: String,
    /// The path of the compiled artifact.
    pub bin_file: String,
    /// The path that stands for `@script_file`.
    pub script_file: String,
}

/// `requests` asks for the builds of `files`, each with an artifact of its
/// own.
pub open spec fn are_solution_builds(requests: Seq<BuildRequest>, files: Seq<RunnableFile>) -> bool {
    &&& requests.len() == files.len()
    &&& forall|i: int|
        0 <= i < files.len() ==> {
            &&& (#[trigger] requests[i]).source@ == relative_path(
                files[i]@.category,
                files[i]@.name,
            )
            &&& requests[i].bin_file@ == artifact_name(i as nat)
            &&& requests[i].script_file@ == requests[i].source@
        }
}

/// The builds that a comparison or a fuzzing run of `files` needs, in the
/// order of the solutions. Fewer than two solutions are refused here, before
/// anything is built or run.
pub fn solution_builds(files: &Vec<RunnableFile>) -> (requests: Result<Vec<BuildRequest>, Error>)
    ensures
        match requests {
            Ok(requests) => files@.len() >= 2 && are_solution_builds(requests@, files@),
            Err(e) => files@.len() < 2 && e == (Error::TooFewSolutions { given: files.len() }),
        },
{
    let n: usize = files.len();
    if n < 2 {
        return Err(Error::TooFewSolutions { given: n });
    }
    let mut requests: Vec<BuildRequest> = Vec::new();
    let mut i: usize = 0;
    while i < n
        invariant
            0 <= i <= n,
            n == files@.len(),
            are_solution_builds(requests@, files@.take(i as int)),
        decreases n - i,
    {
        let source = files[i].path();
        let script_file = source.clone();
        requests.push(BuildRequest { source, bin_file: solution_artifact(i), script_file });
        i = i + 1;
    }
    assert(files@.take(n as int) =~= files@);
    Ok(requests)
}

impl CompareArgs {
    /// The builds that the comparison needs; see [`solution_builds`].
    pub fn builds(&self) -> (requests: Result<Vec<BuildRequest>, Error>)
        ensures
            match requests {
                Ok(requests) => self.solution_files@.len() >= 2 && are_solution_builds(
                    requests@,
                    self.solution_files@,
                ),
                Err(e) => self.solution_files@.len() < 2 && e == (Error::TooFewSolutions {
                    given: self.solution_files.len(),
                }),
            },
    {
        solution_builds(&self.solution_files)
    }
}

/// Where the compiled artifact of the solution with index `i` goes, so that
/// no two solutions of one comparison share an artifact.
pub fn solution_artifact(i: usize) -> (path: String)
    ensures
        path@ == artifact_name(i as nat),
{
    let mut path = String::from_str("solutions/solution_");
    push_decimal(&mut path, i);
    path.append(".out");
    path
}

/// Compares the solutions of `args` over a fixed set of test cases.
///
/// `rounds` holds, for each test case in turn, the result of every solution
/// on it, in the order of the solutions. Each test case is judged by the
/// pivot rule; the report counts the test cases that passed and adds up each
/// solution's time over all of them, passed or not.
pub fn compare(args: &CompareArgs, rounds: &Vec<Vec<RunResult>>) -> (report: Result<
    CompareReport,
    Error,
>)
    requires
        forall|r: int|
            0 <= r < rounds@.len() ==> (#[trigger] rounds@[r])@.len()
                == args.solution_files@.len(),
    ensures
        match report {
            Ok(report) => {
                &&& args.solution_files@.len() >= 2
                &&& reports(report, args.solution_files@.len() as int, rounds_view(rounds@))
            },
            Err(e) => {
                &&& args.solution_files@.len() < 2
                &&& e == (Error::TooFewSolutions { given: args.solution_files@.len() as usize })
            },
        },
{
    let mut session = match ComparisonSession::new(args.solution_files.len()) {
        Ok(session) => session,
        Err(e) => {
            return Err(e);
        },
    };
    let ghost all = rounds_view(rounds@);
    let mut verdicts: Vec<Verdict> = Vec::new();
    let n: usize = rounds.len();
    let mut r: usize = 0;
    while r < n
        invariant
            0 <= r <= n,
            n == rounds@.len(),
            all == rounds_view(rounds@),
            session.solutions() == args.solution_files@.len(),
            session.rounds() == all.take(r as int),
            verdicts@.len() == r,
            forall|k: int| 0 <= k < r ==> is_verdict(#[trigger] all[k], verdicts@[k]),
            forall|k: int|
                0 <= k < rounds@.len() ==> (#[trigger] rounds@[k])@.len()
                    == args.solution_files@.len(),
        decreases n - r,
    {
        assert(rounds@[r as int]@.len() == args.solution_files@.len());
        let verdict = session.record(&rounds[r]);
        verdicts.push(verdict);
        proof {
            assert(all.take(r as int).push(all[r as int]) =~= all.take(r + 1));
        }
        r = r + 1;
    }
    proof {
        assert(all.take(n as int) =~= all);
    }
    Ok(
        CompareReport {
            verdicts,
            passed: session.passed(),
            total: session.total(),
            total_times: session.total_times(),
        },
    )
}

} // verus!
