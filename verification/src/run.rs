//! The run of a flash procedure: a list of operations, carried out one after the other
//! until one of them ends the run.
//!
//! A driver asks a run for its next operation, performs it, and reports what came of it:
//! ```text
//! while let Some(op) = run.next_op() {
//!     let outcome = perform(op);
//!     run.advance(outcome);
//! }
//! let result = run.into_result();
//! ```

use vstd::prelude::*;

use crate::layout::{FlashPage, FlashSector};

verus! {

/// One operation of a flash procedure, in the words of the driver that performs it.
#[derive(Debug, Clone, Copy, PartialEq, Eq)]
pub enum FlashOp<'a> {
    /// Obtain the debug interface of the session.
    AcquireInterface,
    /// Erase the whole chip.
    EraseAll,
    /// Erase one sector.
    EraseSector(&'a FlashSector),
    /// Report that erasing is over.
    FinishedErasing,
    /// Program one page.
    ProgramPage(&'a FlashPage),
    /// Report that a page of this many bytes was programmed.
    PageProgrammed { size: u64 },
    /// Report that programming is over.
    FinishedProgramming,
    /// Compare one page with the content of the flash.
    VerifyPage(&'a FlashPage),
}

/// What came of an operation. `E` is the error of the debug interface.
#[derive(Debug, PartialEq, Eq)]
pub enum Outcome<E> {
    /// The operation was carried out; of a comparison: the content is equal.
    Completed,
    /// The comparison was carried out, and the content differs.
    Mismatch,
    /// The operation failed.
    Failed(E),
}

/// Why a flash procedure failed. `E` is the error of the debug interface.
#[derive(Debug, PartialEq, Eq)]
pub enum FlashError<E> {
    /// The debug interface could not be obtained, or a comparison could not be made.
    Core(E),
    /// The chip could not be erased.
    ChipEraseFailed { source: E },
    /// A sector could not be erased.
    EraseFailed { sector_address: u64, source: E },
    /// A page could not be programmed.
    PageWrite { page_address: u64, source: E },
    /// The content of the flash differs from what was programmed.
    Verify,
}

/// The state of a run: what is still to do, and how the run ended.
#[verifier::ext_equal]
pub struct RunState<'a, R> {
    /// The operations still to do, the next one first.
    pub remaining: Seq<FlashOp<'a>>,
    /// How the run ended, once it has.
    pub result: Option<R>,
}

impl<'a, R> RunState<'a, R> {
    /// The state of a run that has the operations `ops` before it.
    pub open spec fn start(ops: Seq<FlashOp<'a>>) -> Self {
        RunState { remaining: ops, result: None }
    }

    /// The state of a run that ended with `result`.
    pub open spec fn ended(result: R) -> Self {
        RunState { remaining: Seq::empty(), result: Some(result) }
    }

    /// The state after the next operation: the run ends with the verdict on it, if there is
    /// one, and with `at_end` when that operation was the last.
    pub open spec fn step(self, verdict: Option<R>, at_end: R) -> Self {
        if self.remaining.len() == 0 {
            self
        } else if verdict is Some {
            RunState::ended(verdict->0)
        } else if self.remaining.len() == 1 {
            RunState::ended(at_end)
        } else {
            RunState::start(self.remaining.drop_first())
        }
    }
}

/// A run of a flash procedure that ends with an `R`.
pub struct FlashRun<'a, R> {
    ops: Vec<FlashOp<'a>>,
    next: usize,
    result: Option<R>,
}

/// A run that ends with success or an error.
pub type ProgramRun<'a, E> = FlashRun<'a, Result<(), FlashError<E>>>;

/// A run that ends with the answer to a comparison or an error.
pub type VerifyRun<'a, E> = FlashRun<'a, Result<bool, FlashError<E>>>;

impl<'a, R> View for FlashRun<'a, R> {
    type V = RunState<'a, R>;

    closed spec fn view(&self) -> RunState<'a, R> {
        match self.result {
            Some(result) => RunState::ended(result),
            None => RunState::start(self.ops@.skip(self.next as int)),
        }
    }
}

impl<'a, R> FlashRun<'a, R> {
    #[verifier::type_invariant]
    spec fn inv(self) -> bool {
        self.result is None ==> self.next < self.ops@.len()
    }

    /// Starts a run of the given operations.
    pub(crate) fn start(ops: Vec<FlashOp<'a>>) -> (run: Self)
        requires
            ops@.len() > 0,
        ensures
            run@ == RunState::<'a, R>::start(ops@),
    {
        assert(ops@.skip(0) =~= ops@);
        FlashRun { ops, next: 0, result: None }
    }

    /// Returns the next operation, or `None` when the run has ended.
    pub fn next_op(&self) -> (op: Option<FlashOp<'a>>)
        ensures
            op is None <==> self@.result is Some,
            op is None <==> self@.remaining.len() == 0,
            op matches Some(op) ==> op == self@.remaining[0],
    {
        proof {
            use_type_invariant(self);
        }
        match &self.result {
            Some(_) => None,
            None => Some(self.ops[self.next]),
        }
    }

    /// Returns how the run ended, or `None` when it has not.
    pub fn into_result(self) -> (result: Option<R>)
        ensures
            result == self@.result,
    {
        self.result
    }

    /// Moves past the next operation, on which the verdict is `verdict`.
    fn settle(&mut self, verdict: Option<R>, at_end: R)
        ensures
            final(self)@ == old(self)@.step(verdict, at_end),
    {
        proof {
            use_type_invariant(&*self);
        }
        if self.result.is_none() {
            let ghost remaining = self.ops@.skip(self.next as int);
            match verdict {
                Some(result) => {
                    self.result = Some(result);
                },
                None => {
                    if self.ops.len() - self.next == 1 {
                        self.result = Some(at_end);
                    } else {
                        assert(remaining.drop_first() =~= self.ops@.skip(self.next + 1));
                        self.next = self.next + 1;
                    }
                },
            }
        }
    }
}

/// What ends a run of erasing or programming at `op`, or `None` when the run goes on.
/// A report cannot fail.
pub open spec fn program_verdict<E>(op: FlashOp<'_>, outcome: Outcome<E>) -> Option<
    Result<(), FlashError<E>>,
> {
    match (op, outcome) {
        (FlashOp::AcquireInterface, Outcome::Failed(e)) => Some(Err(FlashError::Core(e))),
        (FlashOp::EraseAll, Outcome::Failed(e)) => Some(
            Err(FlashError::ChipEraseFailed { source: e }),
        ),
        (FlashOp::EraseSector(sector), Outcome::Failed(e)) => Some(
            Err(FlashError::EraseFailed { sector_address: sector.address, source: e }),
        ),
        (FlashOp::ProgramPage(page), Outcome::Failed(e)) => Some(
            Err(FlashError::PageWrite { page_address: page.address, source: e }),
        ),
        (FlashOp::VerifyPage(_), Outcome::Failed(e)) => Some(Err(FlashError::Core(e))),
        (FlashOp::VerifyPage(_), Outcome::Mismatch) => Some(Err(FlashError::Verify)),
        _ => None,
    }
}

/// What ends a run of comparing at `op`, or `None` when the run goes on.
pub open spec fn verify_verdict<E>(op: FlashOp<'_>, outcome: Outcome<E>) -> Option<
    Result<bool, FlashError<E>>,
> {
    match (op, outcome) {
        (FlashOp::AcquireInterface, Outcome::Failed(e)) => Some(Err(FlashError::Core(e))),
        (FlashOp::VerifyPage(_), Outcome::Failed(e)) => Some(Err(FlashError::Core(e))),
        (FlashOp::VerifyPage(_), Outcome::Mismatch) => Some(Ok(false)),
        _ => None,
    }
}

/// One step of a run of erasing or programming.
pub open spec fn program_step<'a, E>(
    state: RunState<'a, Result<(), FlashError<E>>>,
    outcome: Outcome<E>,
) -> RunState<'a, Result<(), FlashError<E>>> {
    state.step(program_verdict(state.remaining[0], outcome), Ok(()))
}

/// One step of a run of comparing.
pub open spec fn verify_step<'a, E>(
    state: RunState<'a, Result<bool, FlashError<E>>>,
    outcome: Outcome<E>,
) -> RunState<'a, Result<bool, FlashError<E>>> {
    state.step(verify_verdict(state.remaining[0], outcome), Ok(true))
}

impl<'a, E> FlashRun<'a, Result<(), FlashError<E>>> {
    /// Takes what came of the next operation. The run ends with the first failure, or
    /// with success behind the last operation; a run that has ended does not change.
    pub fn advance(&mut self, outcome: Outcome<E>)
        ensures
            final(self)@ == program_step(old(self)@, outcome),
    {
        match self.next_op() {
            Some(op) => {
                let verdict = match (op, outcome) {
                    (FlashOp::AcquireInterface, Outcome::Failed(e)) => Some(
                        Err(FlashError::Core(e)),
                    ),
                    (FlashOp::EraseAll, Outcome::Failed(e)) => Some(
                        Err(FlashError::ChipEraseFailed { source: e }),
                    ),
                    (FlashOp::EraseSector(sector), Outcome::Failed(e)) => Some(
                        Err(FlashError::EraseFailed { sector_address: sector.address(), source: e }),
                    ),
                    (FlashOp::ProgramPage(page), Outcome::Failed(e)) => Some(
                        Err(FlashError::PageWrite { page_address: page.address(), source: e }),
                    ),
                    (FlashOp::VerifyPage(_), Outcome::Failed(e)) => Some(Err(FlashError::Core(e))),
                    (FlashOp::VerifyPage(_), Outcome::Mismatch) => Some(Err(FlashError::Verify)),
                    _ => None,
                };
                self.settle(verdict, Ok(()));
            },
            None => {},
        }
    }
}

impl<'a, E> FlashRun<'a, Result<bool, FlashError<E>>> {
    /// Takes what came of the next operation. The run ends with `Ok(false)` at the first
    /// page that differs, with the first failure, or with `Ok(true)` behind the last
    /// operation; a run that has ended does not change.
    pub fn advance(&mut self, outcome: Outcome<E>)
        ensures
            final(self)@ == verify_step(old(self)@, outcome),
    {
        match self.next_op() {
            Some(op) => {
                let verdict = match (op, outcome) {
                    (FlashOp::AcquireInterface, Outcome::Failed(e)) => Some(
                        Err(FlashError::Core(e)),
                    ),
                    (FlashOp::VerifyPage(_), Outcome::Failed(e)) => Some(Err(FlashError::Core(e))),
                    (FlashOp::VerifyPage(_), Outcome::Mismatch) => Some(Ok(false)),
                    _ => None,
                };
                self.settle(verdict, Ok(true));
            },
            None => {},
        }
    }
}

} // verus!
