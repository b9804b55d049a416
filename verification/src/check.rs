//! Checking the test files of a problem: every test needs its input and its
//! expected output.

use vstd::prelude::*;
use vstd::string::*;
use crate::error::Error;
use crate::util::texts;

verus! {

/// The name `file` has exactly one dot, at position `p`.
pub open spec fn only_dot(file: Seq<char>, p: int) -> bool {
    &&& 0 <= p < file.len()
    &&& file[p] == '.'
    &&& forall|j: int| 0 <= j < file.len() && j != p ==> file[j] != '.'
}

/// What a file of the test folder is, by its name.
#[derive(Clone, Copy, Debug, PartialEq, Eq, Structural)]
pub enum FileKind {
    /// `<test>.in`: the input of a test.
    Input,
    /// `<test>.out`: the expected output of a test.
    Output,
    /// A name with one dot and another extension than `in` or `out`.
    InvalidExtension,
    /// A name without a dot, or with more than one.
    InvalidName,
}

/// What the file called `file` is.
pub open spec fn kind_of(file: Seq<char>) -> FileKind {
    if exists|p: int| only_dot(file, p) {
        let p = choose|p: int| only_dot(file, p);
        let extension = file.subrange(p + 1, file.len() as int);
        if extension == "in"@ {
            FileKind::Input
        } else if extension == "out"@ {
            FileKind::Output
        } else {
            FileKind::InvalidExtension
        }
    } else {
        FileKind::InvalidName
    }
}

/// The test that the file called `file` belongs to: what stands before its
/// only dot. A name without exactly one dot belongs to none.
pub open spec fn test_of(file: Seq<char>) -> Option<Seq<char>> {
    if exists|p: int| only_dot(file, p) {
        let p = choose|p: int| only_dot(file, p);
        Some(file.subrange(0, p))
    } else {
        None
    }
}

/// One test of a problem and which of its two files were seen.
#[derive(Clone, Debug, PartialEq, Eq)]
pub struct TestData {
    /// The name of the test.
    pub name: String,
    /// Whether `<name>.in` was seen.
    pub input_exists: bool,
    /// Whether `<name>.out` was seen.
    pub output_exists: bool,
}

/// The mathematical content of a [`TestData`].
pub struct TestView {
    pub name: Seq<char>,
    pub input_exists: bool,
    pub output_exists: bool,
}

impl View for TestData {
    type V = TestView;

    open spec fn view(&self) -> TestView {
        TestView {
            name: self.name@,
            input_exists: self.input_exists,
            output_exists: self.output_exists,
        }
    }
}

/// The views of a list of tests.
pub open spec fn tests_view(tests: Seq<TestData>) -> Seq<TestView> {
    tests.map_values(|t: TestData| t@)
}

/// The position of the first test called `name`, or the number of tests
/// if there is none.
pub open spec fn position(tests: Seq<TestView>, name: Seq<char>) -> int
    decreases tests.len(),
{
    if tests.len() == 0 {
        0
    } else if tests[0].name == name {
        0
    } else {
        1 + position(tests.drop_first(), name)
    }
}

/// The test `test` after a file of `kind` was seen for it.
pub open spec fn seen(test: TestView, kind: FileKind) -> TestView {
    match kind {
        FileKind::Input => TestView { input_exists: true, ..test },
        FileKind::Output => TestView { output_exists: true, ..test },
        _ => test,
    }
}

/// The tests after a file of `kind` was seen for the test called `name`: a
/// test that was not known before is added at the end.
pub open spec fn note(tests: Seq<TestView>, name: Seq<char>, kind: FileKind) -> Seq<TestView> {
    let at = position(tests, name);
    if at < tests.len() {
        tests.update(at, seen(tests[at], kind))
    } else {
        tests.push(seen(TestView { name, input_exists: false, output_exists: false }, kind))
    }
}

/// The tests that the files called `files` make up, in the order in which
/// each test is first met. A file with a name that has exactly one dot
/// belongs to a test, whatever its extension is.
pub open spec fn tests_of(files: Seq<Seq<char>>) -> Seq<TestView>
    decreases files.len(),
{
    if files.len() == 0 {
        Seq::empty()
    } else {
        let before = tests_of(files.drop_last());
        match test_of(files.last()) {
            Some(name) => note(before, name, kind_of(files.last())),
            None => before,
        }
    }
}

/// A test is valid if both of its files were seen.
pub open spec fn is_valid(test: TestView) -> bool {
    test.input_exists && test.output_exists
}

/// How many of `tests` lack a file.
pub open spec fn invalid_count(tests: Seq<TestView>) -> nat
    decreases tests.len(),
{
    if tests.len() == 0 {
        0
    } else {
        invalid_count(tests.drop_last()) + if is_valid(tests.last()) {
            0nat
        } else {
            1nat
        }
    }
}

/// What the check of a test folder found.
#[derive(Clone, Debug, PartialEq, Eq)]
pub struct CheckReport {
    /// What each file is, in the order of the files.
    pub kinds: Vec<FileKind>,
    /// The tests, in the order in which each was first met.
    pub tests: Vec<TestData>,
    /// How many tests lack their input or their expected output.
    pub invalid_tests: usize,
    /// Whether there are fewer than two tests.
    pub few_tests: bool,
}

/// A name has at most one position that is its only dot.
proof fn lemma_only_dot_unique(file: Seq<char>, p: int, q: int)
    requires
        only_dot(file, p),
        only_dot(file, q),
    ensures
        p == q,
{
}

/// Takes a file's name apart at its only dot: the test it belongs to and
/// what it is. A name without exactly one dot has no parts.
fn classify(file: &str) -> (parts: (FileKind, Option<String>))
    ensures
        parts.0 == kind_of(file@),
        match parts.1 {
            Some(name) => test_of(file@) == Some(name@),
            None => test_of(file@) is None,
        },
{
    let n: usize = file.unicode_len();
    let mut first: Option<usize> = None;
    let mut more: bool = false;
    let ghost mut second: int = 0;
    let mut i: usize = 0;
    while i < n
        invariant
            0 <= i <= n,
            n == file@.len(),
            match first {
                Some(p) => p < i && file@[p as int] == '.' && forall|j: int|
                    0 <= j < p ==> file@[j] != '.',
                None => !more && forall|j: int| 0 <= j < i ==> file@[j] != '.',
            },
            more ==> first is Some && first->0 < second < i && file@[second] == '.',
            !more && first is Some ==> forall|j: int|
                0 <= j < i && j != first->0 ==> file@[j] != '.',
        decreases n - i,
    {
        if file.get_char(i) == '.' {
            match first {
                None => {
                    first = Some(i);
                },
                Some(_) => {
                    if !more {
                        proof {
                            second = i as int;
                        }
                    }
                    more = true;
                },
            }
        }
        i = i + 1;
    }
    match first {
        Some(p) => {
            if more {
                assert forall|q: int| !only_dot(file@, q) by {
                    if only_dot(file@, q) {
                        assert(file@[p as int] == '.');
                        assert(file@[second] == '.');
                    }
                }
                (FileKind::InvalidName, None)
            } else {
                assert(only_dot(file@, p as int));
                proof {
                    let q = choose|q: int| only_dot(file@, q);
                    lemma_only_dot_unique(file@, p as int, q);
                }
                let name = String::from_str(file.substring_char(0, p));
                let extension = file.substring_char(p + 1, n);
                let input = String::from_str("in");
                let output = String::from_str("out");
                let extension = String::from_str(extension);
                let kind = if extension == input {
                    FileKind::Input
                } else if extension == output {
                    FileKind::Output
                } else {
                    FileKind::InvalidExtension
                };
                (kind, Some(name))
            }
        },
        None => {
            assert forall|q: int| !only_dot(file@, q) by {
                if only_dot(file@, q) {
                    assert(file@[q] != '.');
                }
            }
            (FileKind::InvalidName, None)
        },
    }
}

/// The position of the first of `tests` called `name`, or their number.
fn find(tests: &Vec<TestData>, name: &String) -> (at: usize)
    ensures
        at == position(tests_view(tests@), name@),
        at <= tests@.len(),
{
    let ghost all = tests_view(tests@);
    let n: usize = tests.len();
    let mut i: usize = 0;
    assert(all.skip(0) =~= all);
    while i < n
        invariant
            0 <= i <= n,
            n == tests@.len(),
            all == tests_view(tests@),
            position(all, name@) == i + position(all.skip(i as int), name@),
        decreases n - i,
    {
        proof {
            assert(all.skip(i as int)[0] == tests@[i as int]@);
            assert(all.skip(i as int).drop_first() =~= all.skip(i + 1));
        }
        if tests[i].name == *name {
            return i;
        }
        i = i + 1;
    }
    assert(all.skip(n as int) =~= Seq::<TestView>::empty());
    n
}

/// Checks the files of a test folder, given the names of its files.
///
/// Every file is classified by its name. The files with exactly one dot in
/// their name make up the tests; a test is valid if both its `.in` and its
/// `.out` file are there. A folder without any file is refused.
pub fn check(test_files: &Vec<String>) -> (report: Result<CheckReport, Error>)
    ensures
        match report {
            Ok(report) => {
                &&& test_files@.len() > 0
                &&& report.kinds@.len() == test_files@.len()
                &&& forall|i: int|
                    0 <= i < test_files@.len() ==> report.kinds@[i] == kind_of(
                        (#[trigger] test_files@[i])@,
                    )
                &&& tests_view(report.tests@) == tests_of(texts(test_files@))
                &&& report.invalid_tests == invalid_count(tests_view(report.tests@))
                &&& report.few_tests == (report.tests@.len() < 2)
            },
            Err(e) => test_files@.len() == 0 && e == Error::NoTests,
        },
{
    let n: usize = test_files.len();
    if n == 0 {
        return Err(Error::NoTests);
    }
    let ghost files = texts(test_files@);
    let mut kinds: Vec<FileKind> = Vec::new();
    let mut tests: Vec<TestData> = Vec::new();
    let mut i: usize = 0;
    assert(files.take(0) =~= Seq::<Seq<char>>::empty());
    while i < n
        invariant
            0 <= i <= n,
            n == test_files@.len(),
            files == texts(test_files@),
            kinds@.len() == i,
            forall|k: int| 0 <= k < i ==> kinds@[k] == kind_of((#[trigger] test_files@[k])@),
            tests_view(tests@) == tests_of(files.take(i as int)),
        decreases n - i,
    {
        proof {
            assert(files.take(i + 1).drop_last() =~= files.take(i as int));
            assert(files.take(i + 1).last() == test_files@[i as int]@);
        }
        let (kind, name) = classify(test_files[i].as_str());
        kinds.push(kind);
        match name {
            Some(name) => {
                let ghost before = tests_view(tests@);
                let at = find(&tests, &name);
                if at < tests.len() {
                    let known = &tests[at];
                    let updated = TestData {
                        name: known.name.clone(),
                        input_exists: known.input_exists || kind == FileKind::Input,
                        output_exists: known.output_exists || kind == FileKind::Output,
                    };
                    assert(updated@ == seen(before[at as int], kind));
                    tests.set(at, updated);
                    assert(tests_view(tests@) =~= note(before, name@, kind));
                } else {
                    let added = TestData {
                        name,
                        input_exists: kind == FileKind::Input,
                        output_exists: kind == FileKind::Output,
                    };
                    tests.push(added);
                    assert(tests_view(tests@) =~= note(before, added.name@, kind));
                }
            },
            None => {},
        }
        i = i + 1;
    }
    proof {
        assert(files.take(n as int) =~= files);
    }
    let ghost all = tests_view(tests@);
    let m: usize = tests.len();
    let mut invalid_tests: usize = 0;
    let mut k: usize = 0;
    assert(all.take(0) =~= Seq::<TestView>::empty());
    while k < m
        invariant
            0 <= k <= m,
            m == tests@.len(),
            all == tests_view(tests@),
            invalid_tests == invalid_count(all.take(k as int)),
            invalid_tests <= k,
        decreases m - k,
    {
        proof {
            assert(all.take(k + 1).drop_last() =~= all.take(k as int));
            assert(all.take(k + 1).last() == tests@[k as int]@);
        }
        if !(tests[k].input_exists && tests[k].output_exists) {
            invalid_tests = invalid_tests + 1;
        }
        k = k + 1;
    }
    proof {
        assert(all.take(m as int) =~= all);
    }
    let few_tests = m < 2;
    Ok(CheckReport { kinds, tests, invalid_tests, few_tests })
}

/// Whether a problem's folder holds what every problem has: the statement
/// `problem.md` and the folders `solutions` and `tests`. The first of them
/// that is missing is reported.
pub fn valid_folder_structure(statement: bool, solutions: bool, tests: bool) -> (valid: Result<
    (),
    Error,
>)
    ensures
        match valid {
            Ok(_) => statement && solutions && tests,
            Err(e) => {
                &&& e matches Error::MissingEntry { entry }
                &&& if !statement {
                    entry@ == "problem.md"@
                } else if !solutions {
                    entry@ == "solutions"@
                } else {
                    !tests && entry@ == "tests"@
                }
            },
        },
{
    if !statement {
        Err(Error::MissingEntry { entry: String::from_str("problem.md") })
    } else if !solutions {
        Err(Error::MissingEntry { entry: String::from_str("solutions") })
    } else if !tests {
        Err(Error::MissingEntry { entry: String::from_str("tests") })
    } else {
        Ok(())
    }
}

} // verus!
