use aucpl::check::{check, valid_folder_structure, CheckReport, FileKind, TestData};
use aucpl::error::{Error, ErrorKind};
use aucpl::problem::{create, difficulty_folder, is_valid_problem_name, plan_creation};

fn text(s: &str) -> String {
    s.to_string()
}

fn names(words: &[&str]) -> Vec<String> {
    words.iter().map(|w| w.to_string()).collect()
}

fn data(name: &str, input_exists: bool, output_exists: bool) -> TestData {
    TestData { name: text(name), input_exists, output_exists }
}

#[test]
fn difficulties_fall_into_buckets_of_two_hundred() {
    assert_eq!(difficulty_folder(800).unwrap(), "0800");
    assert_eq!(difficulty_folder(801).unwrap(), "0800");
    assert_eq!(difficulty_folder(999).unwrap(), "0800");
    assert_eq!(difficulty_folder(1000).unwrap(), "1000");
    assert_eq!(difficulty_folder(1199).unwrap(), "1000");
    assert_eq!(difficulty_folder(1200).unwrap(), "1200");
    assert_eq!(difficulty_folder(3456).unwrap(), "3400");
    assert_eq!(difficulty_folder(4800).unwrap(), "4800");
    assert_eq!(difficulty_folder(4999).unwrap(), "4800");
}

#[test]
fn low_difficulties_fall_into_the_first_bucket() {
    assert_eq!(difficulty_folder(1).unwrap(), "0800");
    assert_eq!(difficulty_folder(100).unwrap(), "0800");
    assert_eq!(difficulty_folder(799).unwrap(), "0800");
}

#[test]
fn difficulty_zero_is_unrated() {
    assert_eq!(difficulty_folder(0).unwrap(), "unrated");
}

#[test]
fn difficulties_from_five_thousand_on_are_refused() {
    for difficulty in [5000u16, 5001, 5199, 6000, u16::MAX] {
        let err = difficulty_folder(difficulty).unwrap_err();
        assert_eq!(err, Error::DifficultyTooHigh { difficulty });
        assert_eq!(err.kind(), ErrorKind::Validation);
        assert_eq!(err.message(), "You cannot have a difficulty of over 5000");
    }
}

#[test]
fn names_of_letters_digits_dashes_and_underscores_are_valid() {
    for name in ["two-sum", "A", "a_b-c", "0", "problem_123", "-", "_", "Z9"] {
        assert_eq!(is_valid_problem_name(name), Ok(true), "{name}");
    }
}

#[test]
fn other_names_are_invalid() {
    for name in ["", "two sum", "a/b", "a.b", "né", "a\n", "\na", "a+b", "two-sum!", " ", "a\u{0}"] {
        assert_eq!(is_valid_problem_name(name), Ok(false), "{name:?}");
    }
}

#[test]
fn new_problem_goes_under_new_and_its_difficulty() {
    assert_eq!(create("two-sum", 1234, false).unwrap(), "new/1200/two-sum");
    assert_eq!(create("easy_one", 0, false).unwrap(), "new/unrated/easy_one");
    assert_eq!(create("x", 900, false).unwrap(), "new/0800/x");
}

#[test]
fn creation_checks_difficulty_then_name_then_existence() {
    assert_eq!(create("bad name", 9000, true).unwrap_err(), Error::DifficultyTooHigh { difficulty: 9000 });
    let err = create("bad name", 1000, true).unwrap_err();
    assert_eq!(err, Error::InvalidProblemName { name: text("bad name") });
    assert_eq!(err.kind(), ErrorKind::Validation);
    assert_eq!(
        err.message(),
        "The problem name is invalid. It may only contain alphanumeric characters, dashes, and underscores: bad name"
    );
    let err = create("two-sum", 1000, true).unwrap_err();
    assert_eq!(err, Error::ProblemExists { name: text("two-sum") });
    assert_eq!(err.kind(), ErrorKind::Io);
    assert_eq!(err.message(), "The problem 'two-sum' already exists!");
}

#[test]
fn creation_goes_by_the_match_it_is_given() {
    assert_eq!(plan_creation("bad name", 1000, Some(true), false).unwrap(), "new/1000/bad name");
    assert_eq!(
        plan_creation("two-sum", 1000, Some(false), false).unwrap_err(),
        Error::InvalidProblemName { name: text("two-sum") }
    );
    let err = plan_creation("two-sum", 1000, None, false).unwrap_err();
    assert_eq!(err, Error::InvalidPattern);
    assert_eq!(err.kind(), ErrorKind::Configuration);
    assert_eq!(err.message(), "The pattern for problem names is invalid");
    assert_eq!(
        plan_creation("two-sum", 5000, None, false).unwrap_err(),
        Error::DifficultyTooHigh { difficulty: 5000 }
    );
}

#[test]
fn folder_needs_statement_solutions_and_tests() {
    assert_eq!(valid_folder_structure(true, true, true), Ok(()));
    let err = valid_folder_structure(false, false, false).unwrap_err();
    assert_eq!(err, Error::MissingEntry { entry: text("problem.md") });
    assert_eq!(err.kind(), ErrorKind::Io);
    assert_eq!(err.message(), "The folder structure is not valid! Missing file problem.md");
    assert_eq!(
        valid_folder_structure(true, false, false).unwrap_err(),
        Error::MissingEntry { entry: text("solutions") }
    );
    assert_eq!(
        valid_folder_structure(true, true, false).unwrap_err(),
        Error::MissingEntry { entry: text("tests") }
    );
    assert_eq!(
        valid_folder_structure(false, true, true).unwrap_err(),
        Error::MissingEntry { entry: text("problem.md") }
    );
}

#[test]
fn folder_without_test_files_is_refused() {
    let err = check(&vec![]).unwrap_err();
    assert_eq!(err, Error::NoTests);
    assert_eq!(err.kind(), ErrorKind::Io);
    assert_eq!(err.message(), "There are no test files present!");
}

#[test]
fn tests_with_both_files_are_valid() {
    let report = check(&names(&["a.in", "b.out", "a.out", "b.in"])).unwrap();
    assert_eq!(
        report,
        CheckReport {
            kinds: vec![FileKind::Input, FileKind::Output, FileKind::Output, FileKind::Input],
            tests: vec![data("a", true, true), data("b", true, true)],
            invalid_tests: 0,
            few_tests: false,
        }
    );
}

#[test]
fn tests_that_lack_a_file_are_counted() {
    let report = check(&names(&["a.in", "b.out", "c.in", "c.out", "d.in"])).unwrap();
    assert_eq!(
        report.tests,
        vec![data("a", true, false), data("b", false, true), data("c", true, true), data("d", true, false)]
    );
    assert_eq!(report.invalid_tests, 3);
    assert!(!report.few_tests);
}

#[test]
fn names_need_exactly_one_dot() {
    let report = check(&names(&["readme", "a.b.in", "a.in", "..", "a..in"])).unwrap();
    assert_eq!(
        report.kinds,
        vec![
            FileKind::InvalidName,
            FileKind::InvalidName,
            FileKind::Input,
            FileKind::InvalidName,
            FileKind::InvalidName,
        ]
    );
    assert_eq!(report.tests, vec![data("a", true, false)]);
    assert_eq!(report.invalid_tests, 1);
    assert!(report.few_tests);
}

#[test]
fn other_extensions_still_name_a_test() {
    let report = check(&names(&["a.txt", "b.in", "b.out", "c.", "d.IN"])).unwrap();
    assert_eq!(
        report.kinds,
        vec![
            FileKind::InvalidExtension,
            FileKind::Input,
            FileKind::Output,
            FileKind::InvalidExtension,
            FileKind::InvalidExtension,
        ]
    );
    assert_eq!(
        report.tests,
        vec![data("a", false, false), data("b", true, true), data("c", false, false), data("d", false, false)]
    );
    assert_eq!(report.invalid_tests, 3);
}

#[test]
fn test_without_a_name_is_a_test() {
    let report = check(&names(&[".in", ".out"])).unwrap();
    assert_eq!(report.kinds, vec![FileKind::Input, FileKind::Output]);
    assert_eq!(report.tests, vec![data("", true, true)]);
    assert_eq!(report.invalid_tests, 0);
    assert!(report.few_tests);
}

#[test]
fn repeated_files_change_nothing() {
    let report = check(&names(&["a.in", "a.in", "a.out", "a.txt"])).unwrap();
    assert_eq!(report.tests, vec![data("a", true, true)]);
    assert_eq!(report.invalid_tests, 0);
    assert!(report.few_tests);
}

#[test]
fn names_beyond_ascii_are_taken_apart_by_characters() {
    let report = check(&names(&["größe.in", "größe.out", "日本.in"])).unwrap();
    assert_eq!(report.tests, vec![data("größe", true, true), data("日本", true, false)]);
    assert_eq!(report.invalid_tests, 1);
    assert!(!report.few_tests);
}
