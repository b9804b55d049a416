//! The order of work in one invocation: build every command, run, and clean
//! up every artifact whatever happened before.
//!
//! The library cannot spawn a compiler or delete a file. It says what is
//! due next; the caller does it and reports how it went. Each stage is a
//! value that can only be answered once, so the order cannot be left, and
//! the end is reached only after every build that was started has had its
//! cleanup.

use vstd::prelude::*;

verus! {

/// One piece of work that was done during an invocation.
pub enum Step {
    /// The command with this index was built, or failed to build.
    Build(int),
    /// The commands were run.
    Run,
    /// The artifact of the command with this index was cleaned up.
    Cleanup(int),
}

/// The builds of the commands `0..n`, in order.
pub open spec fn builds(n: int) -> Seq<Step> {
    Seq::new(n as nat, |i: int| Step::Build(i))
}

/// The cleanups of the artifacts of the commands `0..n`, in order.
pub open spec fn cleanups(n: int) -> Seq<Step> {
    Seq::new(n as nat, |i: int| Step::Cleanup(i))
}

/// The run, if there was one.
pub open spec fn runs(ran: bool) -> Seq<Step> {
    if ran {
        seq![Step::Run]
    } else {
        Seq::empty()
    }
}

/// A complete invocation: `started` builds, the run if all builds
/// succeeded, and then the cleanup of every build that was started.
pub open spec fn complete(log: Seq<Step>, started: int, ran: bool) -> bool {
    log == builds(started) + runs(ran) + cleanups(started)
}

/// In a complete invocation every build that was started has its cleanup,
/// once, and no cleanup comes before the last build or the run.
pub proof fn lemma_every_build_is_cleaned_up(log: Seq<Step>, started: int, ran: bool)
    requires
        started >= 0,
        complete(log, started, ran),
    ensures
        forall|i: int|
            0 <= i < started ==> log[i] == Step::Build(i) && #[trigger] log[log.len() - started
                + i] == Step::Cleanup(i),
        forall|j: int|
            0 <= j < log.len() && (#[trigger] log[j]) is Cleanup ==> j >= started + runs(ran).len()
                && log[j] == Step::Cleanup(j - started - runs(ran).len()),
{
    let middle = runs(ran).len();
    assert(log.len() == started + middle + started);
    assert forall|j: int| 0 <= j < log.len() implies if j < started {
        log[j] == Step::Build(j)
    } else if j < started + middle {
        log[j] == Step::Run
    } else {
        log[j] == Step::Cleanup(j - started - middle)
    } by {
        let front = builds(started) + runs(ran);
        if j < started + middle {
            assert(log[j] == front[j]);
        }
    }
    assert forall|i: int| 0 <= i < started implies log[i] == Step::Build(i) && #[trigger] log[log.len()
        - started + i] == Step::Cleanup(i) by {
        let j = log.len() - started + i;
        assert(j >= started + middle);
    }
}

/// The failure to report at the end: the first one that occurred. A failed
/// cleanup never hides the failure that came before it.
pub open spec fn first_failure<E>(earlier: Option<E>, result: Result<(), E>) -> Option<E> {
    match earlier {
        Some(e) => Some(e),
        None => match result {
            Ok(_) => None,
            Err(e) => Some(e),
        },
    }
}

/// The stage in which the command with index `index()` is to be built.
pub struct Building {
    files: usize,
    index: usize,
    log: Ghost<Seq<Step>>,
}

/// The stage in which the commands, all built, are to be run.
pub struct Running {
    files: usize,
    log: Ghost<Seq<Step>>,
}

/// The stage in which the artifact of the command with index `index()` is
/// to be cleaned up.
pub struct Cleaning<E> {
    started: usize,
    index: usize,
    ran: bool,
    failure: Option<E>,
    log: Ghost<Seq<Step>>,
}

/// What is due next.
pub enum Next<E> {
    /// Build the command with the stage's index, then answer the stage.
    Build(Building),
    /// Run the commands, then answer the stage.
    Run(Running),
    /// Clean up the artifact with the stage's index, then answer the stage.
    Cleanup(Cleaning<E>),
    /// Nothing: the invocation is over, with the first failure if any.
    Finish {
        /// How the invocation ended.
        result: Result<(), E>,
        /// The work that was done, in order.
        log: Ghost<Seq<Step>>,
    },
}

impl Building {
    /// The number of commands to build.
    pub closed spec fn files(&self) -> usize {
        self.files
    }

    /// The index of the command to build now.
    pub closed spec fn spec_index(&self) -> usize {
        self.index
    }

    /// The work done so far.
    pub closed spec fn log(&self) -> Seq<Step> {
        self.log@
    }

    #[verifier::type_invariant]
    spec fn well_formed(&self) -> bool {
        &&& self.index < self.files
        &&& self.log@ == builds(self.index as int)
    }

    /// The index of the command to build now.
    #[verifier::when_used_as_spec(spec_index)]
    pub fn index(&self) -> (index: usize)
        ensures
            index == self.index(),
            index < self.files(),
            self.log() == builds(index as int),
    {
        proof {
            use_type_invariant(self);
        }
        self.index
    }

    /// Answers the stage with how the build went. After a successful build
    /// the next command is due, or the run if this was the last one. After a
    /// failed build nothing more is built or run: the cleanup begins, and it
    /// covers the build that failed.
    pub fn done<E>(self, result: Result<(), E>) -> (next: Next<E>)
        ensures
            match result {
                Ok(_) => if self.index() + 1 < self.files() {
                    &&& next matches Next::Build(stage)
                    &&& stage.files() == self.files()
                    &&& stage.index() == self.index() + 1
                } else {
                    &&& next matches Next::Run(stage)
                    &&& stage.files() == self.files()
                },
                Err(e) => {
                    &&& next matches Next::Cleanup(stage)
                    &&& stage.started() == self.index() + 1
                    &&& stage.index() == 0
                    &&& !stage.ran()
                    &&& stage.failure() == Some(e)
                },
            },
    {
        proof {
            use_type_invariant(&self);
        }
        let ghost log = self.log@.push(Step::Build(self.index as int));
        assert(log =~= builds(self.index + 1));
        match result {
            Ok(_) => {
                if self.index + 1 < self.files {
                    Next::Build(Building { files: self.files, index: self.index + 1, log: Ghost(log) })
                } else {
                    Next::Run(Running { files: self.files, log: Ghost(log) })
                }
            },
            Err(e) => {
                assert(log =~= builds(self.index + 1) + runs(false) + cleanups(0));
                Next::Cleanup(
                    Cleaning {
                        started: self.index + 1,
                        index: 0,
                        ran: false,
                        failure: Some(e),
                        log: Ghost(log),
                    },
                )
            },
        }
    }
}

impl Running {
    /// The number of commands that were built.
    pub closed spec fn files(&self) -> usize {
        self.files
    }

    /// The work done so far.
    pub closed spec fn log(&self) -> Seq<Step> {
        self.log@
    }

    #[verifier::type_invariant]
    spec fn well_formed(&self) -> bool {
        self.log@ == builds(self.files as int)
    }

    /// Answers the stage with how the run went. Whether it failed or not,
    /// the cleanup of every command is due; without any command the
    /// invocation is over.
    pub fn done<E>(self, result: Result<(), E>) -> (next: Next<E>)
        ensures
            if self.files() > 0 {
                &&& next matches Next::Cleanup(stage)
                &&& stage.started() == self.files()
                &&& stage.index() == 0
                &&& stage.ran()
                &&& stage.failure() == first_failure(None, result)
            } else {
                &&& next matches Next::Finish { result: reported, log }
                &&& reported == result
                &&& complete(log@, 0, true)
            },
    {
        proof {
            use_type_invariant(&self);
        }
        let ghost log = self.log@.push(Step::Run);
        assert(log =~= builds(self.files as int) + runs(true) + cleanups(0));
        if self.files > 0 {
            let failure = match result {
                Ok(_) => None,
                Err(e) => Some(e),
            };
            Next::Cleanup(
                Cleaning { started: self.files, index: 0, ran: true, failure, log: Ghost(log) },
            )
        } else {
            Next::Finish { result, log: Ghost(log) }
        }
    }
}

impl<E> Cleaning<E> {
    /// The number of builds that were started, each of which gets its
    /// cleanup.
    pub closed spec fn started(&self) -> usize {
        self.started
    }

    /// The index of the command whose artifact is to be cleaned up now.
    pub closed spec fn spec_index(&self) -> usize {
        self.index
    }

    /// Whether the commands were run.
    pub closed spec fn ran(&self) -> bool {
        self.ran
    }

    /// The first failure so far.
    pub closed spec fn failure(&self) -> Option<E> {
        self.failure
    }

    /// The work done so far.
    pub closed spec fn log(&self) -> Seq<Step> {
        self.log@
    }

    #[verifier::type_invariant]
    spec fn well_formed(&self) -> bool {
        &&& self.index < self.started
        &&& self.log@ == builds(self.started as int) + runs(self.ran) + cleanups(
            self.index as int,
        )
    }

    /// The index of the command whose artifact is to be cleaned up now.
    #[verifier::when_used_as_spec(spec_index)]
    pub fn index(&self) -> (index: usize)
        ensures
            index == self.index(),
            index < self.started(),
            self.log() == builds(self.started() as int) + runs(self.ran()) + cleanups(index as int),
    {
        proof {
            use_type_invariant(self);
        }
        self.index
    }

    /// Answers the stage with how the cleanup went. A failed cleanup stops
    /// nothing: the next artifact is due all the same, and the invocation is
    /// over only after the last one. What is reported at the end is the
    /// first failure of the whole invocation.
    pub fn done(self, result: Result<(), E>) -> (next: Next<E>)
        ensures
            if self.index() + 1 < self.started() {
                &&& next matches Next::Cleanup(stage)
                &&& stage.started() == self.started()
                &&& stage.index() == self.index() + 1
                &&& stage.ran() == self.ran()
                &&& stage.failure() == first_failure(self.failure(), result)
            } else {
                &&& next matches Next::Finish { result: reported, log }
                &&& complete(log@, self.started() as int, self.ran())
                &&& match first_failure(self.failure(), result) {
                    Some(e) => reported == Err::<(), E>(e),
                    None => reported is Ok,
                }
            },
    {
        proof {
            use_type_invariant(&self);
        }
        let ghost log = self.log@.push(Step::Cleanup(self.index as int));
        assert(log =~= builds(self.started as int) + runs(self.ran) + cleanups(self.index + 1));
        let failure = match self.failure {
            Some(e) => Some(e),
            None => match result {
                Ok(_) => None,
                Err(e) => Some(e),
            },
        };
        if self.index + 1 < self.started {
            Next::Cleanup(
                Cleaning {
                    started: self.started,
                    index: self.index + 1,
                    ran: self.ran,
                    failure,
                    log: Ghost(log),
                },
            )
        } else {
            let result = match failure {
                Some(e) => Err(e),
                None => Ok(()),
            };
            Next::Finish { result, log: Ghost(log) }
        }
    }
}

/// Begins an invocation that needs `files` commands: the first build is
/// due, or the run if no command is needed.
pub fn begin<E>(files: usize) -> (next: Next<E>)
    ensures
        if files > 0 {
            &&& next matches Next::Build(stage)
            &&& stage.files() == files
            &&& stage.index() == 0
        } else {
            &&& next matches Next::Run(stage)
            &&& stage.files() == 0
        },
{
    assert(builds(0) =~= Seq::<Step>::empty());
    if files > 0 {
        Next::Build(Building { files, index: 0, log: Ghost(Seq::empty()) })
    } else {
        Next::Run(Running { files, log: Ghost(Seq::empty()) })
    }
}

} // verus!
