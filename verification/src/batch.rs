//! One solution over all test inputs of a problem: writing the expected
//! outputs, or checking the solution against them.

use vstd::prelude::*;
use vstd::string::*;
use vstd::utf8::encode_utf8;
use crate::error::Error;
use crate::run::{RunResult, RunView, RunnableCategory};
use crate::util::{
    input_names,
    is_input_name,
    output_file_name,
    output_name,
    texts,
};

verus! {

/// Where the file `name` of the test folder lies in its problem's folder.
pub open spec fn test_file_path(name: Seq<char>) -> Seq<char> {
    "tests/"@ + name
}

/// Where the file `name` of the test folder lies in its problem's folder.
pub fn test_path(name: &str) -> (path: String)
    ensures
        path@ == test_file_path(name@),
{
    let mut path = String::from_str("tests/");
    path.append(name);
    path
}

/// Where the one artifact of a run with a single file of `category` goes:
/// `solutions/solution.out` or `generators/generator.out`.
pub open spec fn single_artifact_name(category: RunnableCategory) -> Seq<char> {
    category.spec_folder() + seq!['/'] + category.spec_name() + ".out"@
}

/// Where the one artifact of a run with a single file of `category` goes.
pub fn single_artifact(category: RunnableCategory) -> (path: String)
    ensures
        path@ == single_artifact_name(category),
{
    let mut path = category.folder();
    path.append("/");
    path.append(category.name().as_str());
    path.append(".out");
    proof {
        reveal_strlit("/");
        assert("/"@ =~= seq!['/']);
    }
    path
}

/// A test case: an input and the file that holds, or is to hold, the output
/// expected for it. Both paths are relative to the problem's folder.
#[derive(Clone, Debug, PartialEq, Eq)]
pub struct TestCase {
    /// The path of the input, `tests/<name>.in`.
    pub input: String,
    /// The path of the expected output, `tests/<name>.out`.
    pub output: String,
}

/// The test case of the input file `test_file` of the test folder. Only a
/// name that ends in `.in` denotes one.
pub fn test_case(test_file: &str) -> (case: Result<TestCase, Error>)
    ensures
        match case {
            Ok(case) => {
                &&& is_input_name(test_file@)
                &&& case.input@ == test_file_path(test_file@)
                &&& case.output@ == test_file_path(output_name(test_file@))
            },
            Err(e) => {
                &&& !is_input_name(test_file@)
                &&& e matches Error::NotAnInput { name }
                &&& name@ == test_file@
            },
        },
{
    match output_file_name(test_file) {
        Ok(output) => Ok(TestCase { input: test_path(test_file), output: test_path(output.as_str()) }),
        Err(e) => Err(e),
    }
}

/// `cases` are the test cases of the inputs called `inputs`, in their order.
pub open spec fn are_cases_of(cases: Seq<TestCase>, inputs: Seq<Seq<char>>) -> bool {
    &&& cases.len() == inputs.len()
    &&& forall|i: int|
        0 <= i < inputs.len() ==> {
            &&& (#[trigger] cases[i]).input@ == test_file_path(inputs[i])
            &&& cases[i].output@ == test_file_path(output_name(inputs[i]))
        }
}

/// The test cases of a problem, given the names of the files in its test
/// folder: one for each file that ends in `.in`, in the order in which the
/// folder lists them. Nothing else says which tests there are.
pub fn test_cases(files: &Vec<String>) -> (cases: Vec<TestCase>)
    ensures
        are_cases_of(cases@, input_names(texts(files@))),
{
    let ghost all = texts(files@);
    let ghost keep = |name: Seq<char>| is_input_name(name);
    let mut cases: Vec<TestCase> = Vec::new();
    let n: usize = files.len();
    let mut i: usize = 0;
    assert(all.take(0) =~= Seq::<Seq<char>>::empty());
    while i < n
        invariant
            0 <= i <= n,
            n == files@.len(),
            all == texts(files@),
            keep == |name: Seq<char>| is_input_name(name),
            are_cases_of(cases@, all.take(i as int).filter(keep)),
        decreases n - i,
    {
        proof {
            assert(all.take(i + 1).drop_last() =~= all.take(i as int));
            assert(all.take(i + 1).last() == files@[i as int]@);
            reveal(Seq::filter);
        }
        match test_case(files[i].as_str()) {
            Ok(case) => {
                cases.push(case);
            },
            Err(_) => {},
        }
        i = i + 1;
    }
    proof {
        assert(all.take(n as int) =~= all);
    }
    cases
}

/// A file to write: where, and what.
#[derive(Clone, Debug, PartialEq, Eq)]
pub struct OutputFile {
    /// The path of the file, relative to the problem's folder.
    pub path: String,
    /// The text to write.
    pub contents: String,
}

/// Turns what the solution printed on the input `test_file` into the
/// expected output of that test case: the text goes, byte for byte, to the
/// `.out` file next to the input.
pub fn solve(test_file: &str, result: RunResult) -> (write: Result<OutputFile, Error>)
    ensures
        match write {
            Ok(file) => {
                &&& is_input_name(test_file@)
                &&& file.path@ == test_file_path(output_name(test_file@))
                &&& file.contents@ == result@.output
            },
            Err(e) => {
                &&& !is_input_name(test_file@)
                &&& e matches Error::NotAnInput { name }
                &&& name@ == test_file@
            },
        },
{
    match test_case(test_file) {
        Ok(case) => Ok(OutputFile { path: case.output, contents: result.output }),
        Err(e) => Err(e),
    }
}

/// One test case as it was checked: the bytes of the expected-output file
/// and what the solution did on the input.
#[derive(Clone, Debug, PartialEq, Eq)]
pub struct Checked {
    /// The bytes that the expected-output file holds.
    pub expected: Vec<u8>,
    /// The solution's result on the input.
    pub result: RunResult,
}

/// The mathematical content of a [`Checked`].
pub struct CheckedView {
    pub expected: Seq<u8>,
    pub result: RunView,
}

impl View for Checked {
    type V = CheckedView;

    open spec fn view(&self) -> CheckedView {
        CheckedView { expected: self.expected@, result: self.result@ }
    }
}

/// The case in which `expected` was expected and `result` came out.
pub open spec fn case_of(expected: Seq<u8>, result: RunView) -> CheckedView {
    CheckedView { expected, result }
}

/// The solution printed exactly the bytes that were expected.
pub open spec fn matches_expected(case: CheckedView) -> bool {
    encode_utf8(case.result.output) == case.expected
}

/// How many of `cases` match what was expected.
pub open spec fn matching_cases(cases: Seq<CheckedView>) -> nat
    decreases cases.len(),
{
    if cases.len() == 0 {
        0
    } else {
        matching_cases(cases.drop_last()) + if matches_expected(cases.last()) {
            1nat
        } else {
            0nat
        }
    }
}

/// The time the solution took over all of `cases`.
pub open spec fn elapsed_total(cases: Seq<CheckedView>) -> nat
    decreases cases.len(),
{
    if cases.len() == 0 {
        0
    } else {
        elapsed_total(cases.drop_last()) + cases.last().result.elapsed as nat
    }
}

/// No more cases match than were checked.
pub proof fn lemma_matching_bound(cases: Seq<CheckedView>)
    ensures
        matching_cases(cases) <= cases.len(),
    decreases cases.len(),
{
    if cases.len() > 0 {
        lemma_matching_bound(cases.drop_last());
    }
}

/// The total time is at most the number of cases times the longest time a
/// run can report.
pub proof fn lemma_elapsed_bound(cases: Seq<CheckedView>)
    ensures
        elapsed_total(cases) <= cases.len() * u64::MAX,
    decreases cases.len(),
{
    if cases.len() > 0 {
        lemma_elapsed_bound(cases.drop_last());
    }
}

/// A case in which the solution printed what was expected counts once, and
/// any other case does not count.
pub proof fn lemma_matching_case_counts_once(cases: Seq<CheckedView>, case: CheckedView)
    ensures
        matches_expected(case) ==> matching_cases(cases.push(case)) == matching_cases(cases) + 1,
        !matches_expected(case) ==> matching_cases(cases.push(case)) == matching_cases(cases),
{
    assert(cases.push(case).drop_last() =~= cases);
}

/// Whether two byte strings are the same.
fn same_bytes(a: &[u8], b: &[u8]) -> (same: bool)
    ensures
        same == (a@ == b@),
{
    if a.len() != b.len() {
        return false;
    }
    let n: usize = a.len();
    let mut i: usize = 0;
    while i < n
        invariant
            0 <= i <= n,
            n == a@.len(),
            n == b@.len(),
            forall|k: int| 0 <= k < i ==> a@[k] == b@[k],
        decreases n - i,
    {
        if a[i] != b[i] {
            return false;
        }
        i = i + 1;
    }
    assert(a@ =~= b@);
    true
}

/// Whether a solution's output is, byte for byte, the expected one.
pub fn check_output(expected: &Vec<u8>, result: &RunResult) -> (matches: bool)
    ensures
        matches == matches_expected(case_of(expected@, result@)),
{
    same_bytes(result.output.as_str().as_bytes(), expected.as_slice())
}

/// The running aggregate of one check of a solution against the expected
/// outputs.
pub struct TestSession {
    passed: u64,
    total: u64,
    total_time: u128,
    cases: Ghost<Seq<CheckedView>>,
}

impl TestSession {
    /// The cases checked so far, oldest first.
    pub closed spec fn cases(&self) -> Seq<CheckedView> {
        self.cases@
    }

    #[verifier::type_invariant]
    spec fn well_formed(&self) -> bool {
        &&& self.total == self.cases@.len()
        &&& self.passed == matching_cases(self.cases@)
        &&& self.total_time == elapsed_total(self.cases@)
    }

    /// A session that has checked nothing yet.
    pub fn new() -> (session: TestSession)
        ensures
            session.cases() == Seq::<CheckedView>::empty(),
    {
        TestSession { passed: 0, total: 0, total_time: 0, cases: Ghost(Seq::empty()) }
    }

    /// Number of test cases checked so far.
    pub fn total(&self) -> (n: u64)
        ensures
            n == self.cases().len(),
    {
        proof {
            use_type_invariant(self);
        }
        self.total
    }

    /// Number of test cases on which the solution printed what was expected.
    pub fn passed(&self) -> (n: u64)
        ensures
            n == matching_cases(self.cases()),
    {
        proof {
            use_type_invariant(self);
        }
        self.passed
    }

    /// The time the solution has taken over all test cases, in nanoseconds.
    pub fn total_time(&self) -> (time: u128)
        ensures
            time == elapsed_total(self.cases()),
    {
        proof {
            use_type_invariant(self);
        }
        self.total_time
    }

    /// Checks one test case and records it: whether the solution printed,
    /// byte for byte, what the expected-output file holds.
    pub fn record(&mut self, expected: &Vec<u8>, result: &RunResult) -> (matches: bool)
        requires
            old(self).cases().len() < u64::MAX,
        ensures
            final(self).cases() == old(self).cases().push(case_of(expected@, result@)),
            matches == matches_expected(case_of(expected@, result@)),
    {
        proof {
            use_type_invariant(&*self);
        }
        let ghost case = CheckedView { expected: expected@, result: result@ };
        let ghost before = self.cases@;
        let ghost after = before.push(case);
        let matches = check_output(expected, result);
        proof {
            assert(after.drop_last() =~= before);
            lemma_matching_bound(before);
            lemma_elapsed_bound(before);
        }
        let passed: u64 = if matches {
            self.passed + 1
        } else {
            self.passed
        };
        *self = TestSession {
            passed,
            total: self.total + 1,
            total_time: self.total_time + result.elapsed_time as u128,
            cases: Ghost(after),
        };
        matches
    }
}

/// The outcome of checking a solution against the expected outputs.
#[derive(Clone, Debug, PartialEq, Eq)]
pub struct TestReport {
    /// For each test case, whether the solution printed what was expected.
    pub outcomes: Vec<bool>,
    /// How many test cases passed.
    pub passed: u64,
    /// How many test cases there were.
    pub total: u64,
    /// The time the solution took over all test cases, in nanoseconds.
    pub total_time: u128,
}

/// The views of a list of checked cases.
pub open spec fn cases_view(cases: Seq<Checked>) -> Seq<CheckedView> {
    cases.map_values(|case: Checked| case@)
}

/// Checks a solution against the expected outputs of all test cases.
///
/// A test case passes if what the solution printed is, byte for byte, what
/// the expected-output file holds. Nothing is written: the report is all
/// there is.
pub fn test(cases: &Vec<Checked>) -> (report: TestReport)
    ensures
        report.outcomes@.len() == cases@.len(),
        forall|i: int|
            0 <= i < cases@.len() ==> report.outcomes@[i] == matches_expected(
                (#[trigger] cases@[i])@,
            ),
        report.passed == matching_cases(cases_view(cases@)),
        report.total == cases@.len(),
        report.total_time == elapsed_total(cases_view(cases@)),
{
    let ghost all = cases_view(cases@);
    let mut session = TestSession::new();
    let mut outcomes: Vec<bool> = Vec::new();
    let n: usize = cases.len();
    let mut i: usize = 0;
    while i < n
        invariant
            0 <= i <= n,
            n == cases@.len(),
            all == cases_view(cases@),
            session.cases() == all.take(i as int),
            outcomes@.len() == i,
            forall|k: int|
                0 <= k < i ==> outcomes@[k] == matches_expected((#[trigger] cases@[k])@),
        decreases n - i,
    {
        let matches = session.record(&cases[i].expected, &cases[i].result);
        outcomes.push(matches);
        proof {
            assert(all[i as int] == cases@[i as int]@);
            assert(all.take(i as int).push(all[i as int]) =~= all.take(i + 1));
        }
        i = i + 1;
    }
    proof {
        assert(all.take(n as int) =~= all);
    }
    TestReport {
        outcomes,
        passed: session.passed(),
        total: session.total(),
        total_time: session.total_time(),
    }
}

} // verus!
