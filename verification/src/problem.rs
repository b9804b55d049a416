//! Creating a problem: which names are allowed, and where a problem of a
//! given difficulty goes.

use vstd::prelude::*;
use vstd::string::*;
use crate::error::Error;
use crate::pattern::{pattern_matches, regex_match};
use crate::util::{decimal, push_decimal};

verus! {

/// The least difficulty bucket.
pub const MIN_DIFFICULTY_BUCKET: u16 = 800;

/// The bound that no bucket reaches.
pub const MAX_DIFFICULTY_BUCKET: u16 = 5000;

/// The width of a difficulty bucket.
pub const DIFFICULTY_BUCKET_INTERVAL: u16 = 200;

/// The pattern that a problem's name has to match: one or more letters,
/// digits, underscores and dashes, and nothing else.
pub open spec fn name_pattern() -> Seq<char> {
    "^[A-Za-z0-9_-]+$"@
}

/// The bucket of a difficulty: buckets are 200 wide and begin at 800, and
/// everything below 800 falls into the first one.
pub open spec fn bucket_of(difficulty: u16) -> int {
    if difficulty > 800 {
        800 + ((difficulty - 800) / 200) * 200
    } else {
        800
    }
}

/// The name of the folder for problems of `bucket`: its numeral, with
/// zeros in front up to four digits.
pub open spec fn bucket_folder(bucket: int) -> Seq<char> {
    if bucket < 1000 {
        seq!['0'] + decimal(bucket as nat)
    } else {
        decimal(bucket as nat)
    }
}

/// The name of the folder for problems of `difficulty`: `unrated` for
/// difficulty 0, the bucket otherwise.
pub open spec fn difficulty_folder_name(difficulty: u16) -> Seq<char> {
    if difficulty == 0 {
        "unrated"@
    } else {
        bucket_folder(bucket_of(difficulty))
    }
}

/// The folder of a rated problem has four characters, like the years of a
/// calendar: buckets below 1000 get a zero in front.
pub proof fn lemma_rated_folder_len(difficulty: u16)
    requires
        difficulty != 0,
        bucket_of(difficulty) < 5000,
    ensures
        difficulty_folder_name(difficulty).len() == 4,
{
    reveal_with_fuel(decimal, 5);
}

/// The folder for problems of `difficulty`. A difficulty whose bucket would
/// reach 5000 is refused.
pub fn difficulty_folder(difficulty: u16) -> (folder: Result<String, Error>)
    ensures
        match folder {
            Ok(folder) => bucket_of(difficulty) < 5000 && folder@ == difficulty_folder_name(
                difficulty,
            ),
            Err(e) => bucket_of(difficulty) >= 5000 && e == (Error::DifficultyTooHigh {
                difficulty,
            }),
        },
{
    let mut bucket: u16 = MIN_DIFFICULTY_BUCKET;
    if difficulty > MIN_DIFFICULTY_BUCKET {
        bucket = bucket + ((difficulty - MIN_DIFFICULTY_BUCKET) / DIFFICULTY_BUCKET_INTERVAL)
            * DIFFICULTY_BUCKET_INTERVAL;
    }
    if bucket >= MAX_DIFFICULTY_BUCKET {
        return Err(Error::DifficultyTooHigh { difficulty });
    }
    if difficulty == 0 {
        return Ok(String::from_str("unrated"));
    }
    let mut folder = if bucket < 1000 {
        String::from_str("0")
    } else {
        String::new()
    };
    proof {
        reveal_strlit("0");
        assert("0"@ =~= seq!['0']);
    }
    push_decimal(&mut folder, bucket as usize);
    assert(folder@ =~= bucket_folder(bucket as int));
    Ok(folder)
}

/// Where a new problem called `name` goes, for a difficulty whose folder
/// is `folder`: `new/<folder>/<name>`, relative to the problems folder.
pub open spec fn new_problem_path(folder: Seq<char>, name: Seq<char>) -> Seq<char> {
    "new/"@ + folder + seq!['/'] + name
}

/// `planned` is what the creation of the problem `name` of `difficulty`
/// comes to, where `matched` says whether the name matches the pattern for
/// names and `exists` whether there is such a problem already. The checks
/// come in this order: the difficulty, the name, the existing problem.
pub open spec fn creates(
    name: Seq<char>,
    difficulty: u16,
    matched: Option<bool>,
    exists: bool,
    planned: Result<String, Error>,
) -> bool {
    if bucket_of(difficulty) >= 5000 {
        planned == Err::<String, Error>(Error::DifficultyTooHigh { difficulty })
    } else if matched is None {
        planned == Err::<String, Error>(Error::InvalidPattern)
    } else if matched == Some(false) {
        &&& planned matches Err(Error::InvalidProblemName { name: reported })
        &&& reported@ == name
    } else if exists {
        &&& planned matches Err(Error::ProblemExists { name: reported })
        &&& reported@ == name
    } else {
        &&& planned matches Ok(path)
        &&& path@ == new_problem_path(difficulty_folder_name(difficulty), name)
    }
}

/// Plans the creation of a problem like [`create`], given whether the name
/// matches the pattern for names.
pub fn plan_creation(problem_name: &str, difficulty: u16, matched: Option<bool>, exists: bool) -> (planned:
    Result<String, Error>)
    ensures
        creates(problem_name@, difficulty, matched, exists, planned),
{
    let folder = match difficulty_folder(difficulty) {
        Ok(folder) => folder,
        Err(e) => {
            return Err(e);
        },
    };
    match matched {
        None => {
            return Err(Error::InvalidPattern);
        },
        Some(valid) => {
            if !valid {
                return Err(Error::InvalidProblemName { name: String::from_str(problem_name) });
            }
        },
    }
    if exists {
        return Err(Error::ProblemExists { name: String::from_str(problem_name) });
    }
    let mut path = String::from_str("new/");
    path.append(folder.as_str());
    path.append("/");
    path.append(problem_name);
    proof {
        reveal_strlit("/");
        assert("/"@ =~= seq!['/']);
    }
    Ok(path)
}

/// Whether `problem_name` may name a problem: whether it matches the
/// pattern for names.
pub fn is_valid_problem_name(problem_name: &str) -> (valid: Result<bool, Error>)
    ensures
        match valid {
            Ok(valid) => regex_match(name_pattern(), problem_name@) == Some(valid),
            Err(e) => regex_match(name_pattern(), problem_name@) is None && e
                == Error::InvalidPattern,
        },
{
    match pattern_matches("^[A-Za-z0-9_-]+$", problem_name) {
        Some(matched) => Ok(matched),
        None => Err(Error::InvalidPattern),
    }
}

/// Plans the creation of the problem `problem_name` of `difficulty`: where
/// its folder goes, relative to the problems folder, or why there can be no
/// such problem. `exists` says whether there is a problem of that name
/// already.
pub fn create(problem_name: &str, difficulty: u16, exists: bool) -> (planned: Result<String, Error>)
    ensures
        creates(
            problem_name@,
            difficulty,
            regex_match(name_pattern(), problem_name@),
            exists,
            planned,
        ),
{
    let matched = match is_valid_problem_name(problem_name) {
        Ok(matched) => Some(matched),
        Err(_) => None,
    };
    plan_creation(problem_name, difficulty, matched, exists)
}

} // verus!
