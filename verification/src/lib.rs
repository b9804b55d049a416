//! Execution and differential-testing engine for a local repository of
//! programming-contest problems.
//!
//! A problem has solutions, generators and test cases. The engine turns a
//! source file into a command, compiling it first where its language asks
//! for that, and drives three kinds of work with such commands: running one
//! solution over all test inputs, comparing several solutions over them,
//! and fuzzing, which generates inputs until two solutions disagree.
//!
//! The library decides; the program around it spawns the processes and
//! touches the file system. Every function here takes and returns plain
//! values and carries a contract that Verus proves. What is taken on trust
//! are three calls into other crates: the extension of a path, a random
//! identifier, and the match of a regular expression.
//!
//! - [`config`]: the settings and the profile of each language.
//! - [`run`]: runnable files, the commands built from them, what a run yields.
//! - [`compare`]: the pivot rule and the aggregate of a comparison.
//! - [`fuzz`]: one iteration of the fuzzing loop.
//! - [`batch`]: one solution over all test cases, to write or to check outputs.
//! - [`generate`]: one generated test input.
//! - [`lifecycle`]: the order of building, running and cleaning up.
//! - [`problem`] and [`check`]: creating a problem and checking its test folder.
//! - [`util`] and [`pattern`]: names of files, numerals, regular expressions.
//! - [`error`]: what can fail.

pub mod batch;
pub mod check;
pub mod compare;
pub mod config;
pub mod error;
pub mod fuzz;
pub mod generate;
pub mod lifecycle;
pub mod pattern;
pub mod problem;
pub mod run;
pub mod util;
