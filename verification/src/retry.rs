//! The retry policy of a probe: an attempt that faults is made again while
//! retries remain, and the first attempt that comes back with an answer ends
//! the run, whatever the answer is.
//!
//! An attempt ends in a `Result`: `Ok` carries the answer of a compiler that
//! ran (acceptance or rejection alike), `Err` a fault in starting it or in
//! talking to it. The policy is the state machine [`RunState`];
//! [`retry_n_times`] is the loop that makes the attempts and feeds it.

use vstd::prelude::*;

verus! {

/// Where a probe's run of attempts stands.
///
/// A run is idle until it is begun, and then attempting. An attempt that
/// comes back with an answer ends the run in `Succeeded`; one that faults
/// leaves it `Faulted`, from where it goes back to `Attempting` at once, with
/// one retry fewer, if a retry is left, and otherwise ends in
/// `FaultedTerminal`. There is no delay between attempts.
#[derive(Debug)]
pub enum RunState<T, E> {
    /// Nothing has been asked for yet.
    Idle,
    /// An attempt is due; if it faults, `retries_left` more may follow.
    Attempting { retries_left: usize },
    /// An attempt came back with this answer. No further attempt is made.
    Succeeded(T),
    /// An attempt has faulted, with `retries_left` retries left at the time.
    Faulted { fault: E, retries_left: usize },
    /// An attempt faulted when no retry was left.
    FaultedTerminal(E),
}

impl<T, E> RunState<T, E> {
    /// Whether the run is over.
    pub open spec fn is_terminal(self) -> bool {
        self is Succeeded || self is FaultedTerminal
    }

    /// What a run that is over hands back to the caller.
    pub open spec fn outcome(self) -> Option<Result<T, E>> {
        match self {
            RunState::Succeeded(answer) => Some(Ok(answer)),
            RunState::FaultedTerminal(fault) => Some(Err(fault)),
            _ => None,
        }
    }

    /// The state after the run has been begun with `retries` retries allowed.
    /// Only an idle run can be begun: any other state stays as it is.
    pub open spec fn begun(self, retries: usize) -> Self {
        match self {
            RunState::Idle => RunState::Attempting { retries_left: retries },
            _ => self,
        }
    }

    /// The state after an attempt has ended in `attempt`. Only a run that is
    /// attempting takes an attempt in: any other state stays as it is.
    pub open spec fn recorded(self, attempt: Result<T, E>) -> Self {
        match self {
            RunState::Attempting { retries_left } => match attempt {
                Ok(answer) => RunState::Succeeded(answer),
                Err(fault) => RunState::Faulted { fault, retries_left },
            },
            _ => self,
        }
    }

    /// The state that follows a fault: attempting again where a retry is
    /// left, and the end where none is. Any other state stays as it is.
    pub open spec fn recovered(self) -> Self {
        match self {
            RunState::Faulted { fault, retries_left } => if retries_left > 0 {
                RunState::Attempting { retries_left: (retries_left - 1) as usize }
            } else {
                RunState::FaultedTerminal(fault)
            },
            _ => self,
        }
    }

    /// The state after an attempt has ended in `attempt` and, where it
    /// faulted, the fault has been dealt with.
    pub open spec fn after(self, attempt: Result<T, E>) -> Self {
        self.recorded(attempt).recovered()
    }

    /// The state reached from idle once the run has been begun, with
    /// `retries` retries allowed, and the attempts made so far have ended as
    /// `attempts` lists them, in order.
    pub open spec fn run(retries: usize, attempts: Seq<Result<T, E>>) -> Self
        decreases attempts.len(),
    {
        if attempts.len() == 0 {
            RunState::<T, E>::Idle.begun(retries)
        } else {
            Self::run(retries, attempts.drop_last()).after(attempts.last())
        }
    }

    /// Begins the run, with `retries` retries allowed.
    pub fn begin(self, retries: usize) -> (next: Self)
        ensures
            next == self.begun(retries),
    {
        match self {
            RunState::Idle => RunState::Attempting { retries_left: retries },
            other => other,
        }
    }

    /// Takes in how an attempt ended.
    pub fn record(self, attempt: Result<T, E>) -> (next: Self)
        ensures
            next == self.recorded(attempt),
    {
        match self {
            RunState::Attempting { retries_left } => match attempt {
                Ok(answer) => RunState::Succeeded(answer),
                Err(fault) => RunState::Faulted { fault, retries_left },
            },
            other => other,
        }
    }

    /// Deals with a fault: back to attempting where a retry is left, and to
    /// the end where none is.
    pub fn recover(self) -> (next: Self)
        ensures
            next == self.recovered(),
    {
        match self {
            RunState::Faulted { fault, retries_left } => if retries_left > 0 {
                RunState::Attempting { retries_left: retries_left - 1 }
            } else {
                RunState::FaultedTerminal(fault)
            },
            other => other,
        }
    }
}

/// While every attempt so far has faulted and retries remain, the run is
/// still attempting, and each fault has used up one retry.
pub proof fn lemma_faults_use_up_retries<T, E>(retries: usize, attempts: Seq<Result<T, E>>)
    requires
        attempts.len() <= retries,
        forall|i: int| 0 <= i < attempts.len() ==> attempts[i] is Err,
    ensures
        RunState::run(retries, attempts) == (RunState::<T, E>::Attempting {
            retries_left: (retries - attempts.len()) as usize,
        }),
    decreases attempts.len(),
{
    if attempts.len() > 0 {
        lemma_faults_use_up_retries(retries, attempts.drop_last());
    }
}

/// A run that is over takes no notice of further attempts.
pub proof fn lemma_terminal_state_stays<T, E>(
    retries: usize,
    attempts: Seq<Result<T, E>>,
    more: Seq<Result<T, E>>,
)
    requires
        RunState::run(retries, attempts).is_terminal(),
    ensures
        RunState::run(retries, attempts + more) == RunState::run(retries, attempts),
    decreases more.len(),
{
    if more.len() > 0 {
        lemma_terminal_state_stays(retries, attempts, more.drop_last());
        assert((attempts + more).drop_last() =~= attempts + more.drop_last());
    }
}

/// While a run is still attempting, every attempt so far has faulted, and
/// each fault has used up one retry.
pub proof fn lemma_attempting_means_faults<T, E>(retries: usize, attempts: Seq<Result<T, E>>)
    requires
        !RunState::run(retries, attempts).is_terminal(),
    ensures
        attempts.len() <= retries,
        forall|i: int| 0 <= i < attempts.len() ==> attempts[i] is Err,
        RunState::run(retries, attempts) == (RunState::<T, E>::Attempting {
            retries_left: (retries - attempts.len()) as usize,
        }),
    decreases attempts.len(),
{
    if attempts.len() > 0 {
        let earlier = attempts.drop_last();
        lemma_attempting_means_faults(retries, earlier);
        assert forall|i: int| 0 <= i < attempts.len() implies attempts[i] is Err by {
            if i < earlier.len() {
                assert(attempts[i] == earlier[i]);
            }
        }
    }
}

/// What a full course looks like. A run that is over with the last of
/// `attempts` and not before it has made at most `retries + 1` attempts; all
/// but the last faulted; it ends in a fault only after `retries + 1`
/// attempts; and its outcome is how the last attempt ended.
pub proof fn lemma_full_course<T, E>(retries: usize, attempts: Seq<Result<T, E>>)
    requires
        attempts.len() > 0,
        RunState::run(retries, attempts).is_terminal(),
        !RunState::run(retries, attempts.drop_last()).is_terminal(),
    ensures
        attempts.len() <= retries + 1,
        forall|i: int| 0 <= i < attempts.len() - 1 ==> attempts[i] is Err,
        attempts.last() is Err ==> attempts.len() == retries + 1,
        RunState::run(retries, attempts).outcome() == Some(attempts.last()),
{
    let earlier = attempts.drop_last();
    lemma_attempting_means_faults(retries, earlier);
    assert forall|i: int| 0 <= i < attempts.len() - 1 implies attempts[i] is Err by {
        assert(attempts[i] == earlier[i]);
    }
}

/// Faults on the first `faults` attempts, no more of them than there are
/// retries, and then an attempt that comes back: the run succeeds with the
/// answer of that attempt, and is over after `faults + 1` attempts. An answer
/// on the first attempt (`faults == 0`) is final at once: a rejection is never
/// tried again.
pub proof fn lemma_answer_after_transient_faults<T, E>(
    retries: usize,
    attempts: Seq<Result<T, E>>,
    faults: int,
)
    requires
        0 <= faults <= retries,
        faults < attempts.len(),
        forall|i: int| 0 <= i < faults ==> attempts[i] is Err,
        attempts[faults] is Ok,
    ensures
        RunState::run(retries, attempts) == RunState::<T, E>::Succeeded(attempts[faults]->Ok_0),
        RunState::run(retries, attempts.take(faults + 1)) == RunState::run(retries, attempts),
        !RunState::run(retries, attempts.take(faults)).is_terminal(),
{
    let before = attempts.take(faults);
    let upto = attempts.take(faults + 1);
    lemma_faults_use_up_retries(retries, before);
    assert(upto.drop_last() =~= before);
    lemma_terminal_state_stays(retries, upto, attempts.skip(faults + 1));
    assert(upto + attempts.skip(faults + 1) =~= attempts);
}

/// Faults on the first attempt and on every retry: the run ends in the fault
/// of the last of these `retries + 1` attempts, and not before it.
pub proof fn lemma_fault_after_all_retries<T, E>(retries: usize, attempts: Seq<Result<T, E>>)
    requires
        attempts.len() > retries,
        forall|i: int| 0 <= i <= retries ==> attempts[i] is Err,
    ensures
        RunState::run(retries, attempts) == RunState::<T, E>::FaultedTerminal(
            attempts[retries as int]->Err_0,
        ),
        RunState::run(retries, attempts.take(retries + 1)) == RunState::run(retries, attempts),
        !RunState::run(retries, attempts.take(retries as int)).is_terminal(),
{
    let before = attempts.take(retries as int);
    let upto = attempts.take(retries + 1);
    lemma_faults_use_up_retries(retries, before);
    assert(upto.drop_last() =~= before);
    lemma_terminal_state_stays(retries, upto, attempts.skip(retries + 1));
    assert(upto + attempts.skip(retries + 1) =~= attempts);
}

/// Whether `attempts` is a full course of a run with `f` that allows
/// `retries` retries: every entry is a result that a call of `f` can give, and
/// the run is over with the last entry and not before it.
pub open spec fn is_course<T, E, F: FnMut() -> Result<T, E>>(
    f: F,
    retries: usize,
    attempts: Seq<Result<T, E>>,
) -> bool {
    &&& attempts.len() > 0
    &&& forall|i: int| 0 <= i < attempts.len() ==> call_ensures(f, (), #[trigger] attempts[i])
    &&& RunState::run(retries, attempts).is_terminal()
    &&& !RunState::run(retries, attempts.drop_last()).is_terminal()
}

/// Calls `f`, and again after each fault, up to `n` more times; hands back
/// what the first call that did not fault returned, or else the fault of the
/// last call. Each call's result goes through [`RunState::record`] and
/// [`RunState::recover`], which alone decide whether another call follows.
///
/// The result is the last entry of a full course of the run, and so a result
/// that `f` gave. A closure's contract speaks of one call at a time: that the
/// calls were made one after the other, as many as the course is long, is
/// what the loop does and no clause says.
#[verifier::loop_isolation(false)]
pub fn retry_n_times<T, E, F>(n: usize, mut f: F) -> (result: Result<T, E>) where
    F: FnMut() -> Result<T, E>,

    requires
        call_requires(f, ()),
    ensures
        call_ensures(f, (), result),
        exists|attempts: Seq<Result<T, E>>| #[trigger]
            is_course(f, n, attempts) && RunState::run(n, attempts).outcome() == Some(result),
{
    let ghost attempt = f;
    let ghost mut attempts: Seq<Result<T, E>> = Seq::empty();
    let idle: RunState<T, E> = RunState::Idle;
    let mut state = idle.begin(n);
    loop
        invariant
            f == attempt,
            state is Attempting,
            state == RunState::run(n, attempts),
            forall|i: int| 0 <= i < attempts.len() ==> call_ensures(attempt, (), #[trigger] attempts[i]),
        decreases state->Attempting_retries_left,
    {
        let outcome = f();
        proof {
            assert(attempts.push(outcome).drop_last() =~= attempts);
            attempts = attempts.push(outcome);
        }
        state = state.record(outcome).recover();
        match state {
            RunState::Succeeded(answer) => {
                assert(is_course(attempt, n, attempts));
                return Ok(answer);
            },
            RunState::FaultedTerminal(fault) => {
                assert(is_course(attempt, n, attempts));
                return Err(fault);
            },
            _ => {},
        }
    }
}

} // verus!
