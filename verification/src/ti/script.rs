//! Scripts: what a debug probe is asked to do, operation by operation.
//!
//! A script is carried out in order and ends behind its last operation or at the first
//! one that fails. The driver that performs the operations answers each with a [`Reply`].

use vstd::prelude::*;

use super::error::SequenceError;
use super::registers::{ApSel, DeviceStatusRegister, RxCtrlRegister, TxCtrlRegister};

verus! {

/// One operation of the debug probe.
#[derive(Debug, Clone, Copy, PartialEq, Eq, Structural)]
pub enum ProbeOp {
    /// Write an access port register.
    WriteAp { ap: ApSel, address: u64, value: u32 },
    /// Read an access port register.
    ReadAp { ap: ApSel, address: u64 },
    /// Read an access port register; that this fails is no failure of the script.
    TryReadAp { ap: ApSel, address: u64 },
    /// Read TX_CTRL until [`poll_tx_ctrl`] says that it is empty or that time is up.
    AwaitTxEmpty { timeout_ms: u64 },
    /// Read RX_CTRL until [`poll_rx_ctrl`] says that it is ready or that time is up.
    AwaitRxReady { timeout_ms: u64 },
    /// Read the device status until [`poll_saci_mode`] says that the device is in SACI mode
    /// or that time is up.
    AwaitSaciMode { timeout_ms: u64 },
    /// Do nothing for a while.
    Sleep { millis: u64 },
    /// Initialize the debug interface again: connect and start the debug port.
    Reinitialize,
    /// Abort the current access port transaction and clear all sticky error flags.
    ClearDebugErrors,
    /// Select the default access port and register bank.
    SelectDefaultBank,
    /// Read the power-up acknowledgements of the debug port.
    ReadPowerStatus,
    /// Request power for the system and for debugging, with all byte lanes or with none.
    RequestPower { all_byte_lanes: bool },
    /// Read the power-up acknowledgements until [`poll_power`] says that both are given or
    /// that time is up.
    AwaitPower { timeout_ms: u64 },
    /// Read whether the core is to halt when it leaves reset.
    ReadResetCatch,
    /// Read the breakpoint control register of the core.
    ReadBreakpointControl,
    /// Write the breakpoint control register of the core with its key set.
    RestoreBreakpointControl { value: u32 },
    /// Request a system reset from the core.
    RequestSystemReset,
    /// Flush pending writes; that this fails is no failure of the script.
    Flush,
    /// Enable debugging of the core and halt it.
    HaltCore,
    /// Read the state of the core until it has halted.
    AwaitHalt,
    /// Write a register of the core.
    WriteCoreRegister { register: u16, value: u32 },
    /// Start debugging the core as on any Cortex-M.
    StartCore,
    /// Drive nRESET low.
    AssertReset,
    /// Drive nRESET high.
    ReleaseReset,
    /// Run the default connect sequence of the debug port.
    Connect,
}

/// The answer to an operation. `E` is the error of the debug probe.
#[derive(Debug, PartialEq, Eq)]
pub enum Reply<E> {
    /// The operation was carried out.
    Done,
    /// The value that was read.
    Word(u32),
    /// The condition that was read.
    Flag(bool),
    /// The power-up acknowledgements that were read.
    Power { system: bool, debug: bool },
    /// Time was up.
    TimedOut,
    /// The operation failed.
    Failed(E),
}

/// What an operation read.
#[derive(Debug, Clone, Copy, PartialEq, Eq, Structural)]
pub enum Value {
    /// Nothing.
    Nothing,
    /// A register.
    Word(u32),
    /// A condition.
    Flag(bool),
    /// The power-up acknowledgements.
    Power { system: bool, debug: bool },
}

/// What to do after a register was polled once.
#[derive(Debug, Clone, Copy, PartialEq, Eq, Structural)]
pub enum Poll {
    /// What was waited for has come.
    Ready,
    /// Time is up.
    Expired,
    /// Poll again after this many microseconds.
    Again { wait_us: u64 },
}

impl Poll {
    /// What to do, given whether what is waited for has come and whether time is up.
    pub open spec fn of(ready: bool, expired: bool, wait_us: u64) -> Poll {
        if ready {
            Poll::Ready
        } else if expired {
            Poll::Expired
        } else {
            Poll::Again { wait_us }
        }
    }
}

/// Decides on one reading of TX_CTRL: waits until the device has taken the last word.
pub fn poll_tx_ctrl(tx_ctrl: TxCtrlRegister, expired: bool) -> (poll: Poll)
    ensures
        poll == Poll::of(!tx_ctrl.spec_txd_full(), expired, 0),
{
    if !tx_ctrl.txd_full() {
        Poll::Ready
    } else if expired {
        Poll::Expired
    } else {
        Poll::Again { wait_us: 0 }
    }
}

/// Decides on one reading of RX_CTRL: waits until the device has given a word.
pub fn poll_rx_ctrl(rx_ctrl: RxCtrlRegister, expired: bool) -> (poll: Poll)
    ensures
        poll == Poll::of(rx_ctrl.spec_rxd_ready(), expired, 5),
{
    if rx_ctrl.rxd_ready() {
        Poll::Ready
    } else if expired {
        Poll::Expired
    } else {
        Poll::Again { wait_us: 5 }
    }
}

/// Decides on one reading of the device status, which is `None` where it could not be read:
/// waits until the device is in SACI mode.
pub fn poll_saci_mode(status: Option<DeviceStatusRegister>, expired: bool) -> (poll: Poll)
    ensures
        poll == Poll::of(
            status is Some && !status->0.spec_ahb_ap_available(),
            expired,
            50_000,
        ),
{
    let ready = match status {
        Some(status) => !status.ahb_ap_available(),
        None => false,
    };
    if ready {
        Poll::Ready
    } else if expired {
        Poll::Expired
    } else {
        Poll::Again { wait_us: 50_000 }
    }
}

/// Decides on one reading of the power-up acknowledgements: waits until both are given.
pub fn poll_power(system: bool, debug: bool, expired: bool) -> (poll: Poll)
    ensures
        poll == Poll::of(system && debug, expired, 0),
{
    if system && debug {
        Poll::Ready
    } else if expired {
        Poll::Expired
    } else {
        Poll::Again { wait_us: 0 }
    }
}

/// Whether a reply is of a kind that answers the operation.
pub open spec fn answers<E>(op: ProbeOp, reply: Reply<E>) -> bool {
    match op {
        ProbeOp::ReadAp { .. } => reply is Word || reply is Failed,
        ProbeOp::TryReadAp { .. } => reply is Word || reply is Failed,
        ProbeOp::ReadBreakpointControl => reply is Word || reply is Failed,
        ProbeOp::ReadResetCatch => reply is Flag || reply is Failed,
        ProbeOp::ReadPowerStatus => reply is Power || reply is Failed,
        ProbeOp::AwaitTxEmpty { .. } => reply is Done || reply is TimedOut || reply is Failed,
        ProbeOp::AwaitRxReady { .. } => reply is Done || reply is TimedOut || reply is Failed,
        ProbeOp::AwaitPower { .. } => reply is Done || reply is TimedOut || reply is Failed,
        ProbeOp::AwaitSaciMode { .. } => reply is Done || reply is TimedOut,
        ProbeOp::Sleep { .. } => reply is Done,
        _ => reply is Done || reply is Failed,
    }
}

/// The error with which a reply ends the script, if it does.
pub open spec fn reply_error<E>(op: ProbeOp, reply: Reply<E>) -> Option<SequenceError<E>> {
    match reply {
        Reply::TimedOut => Some(SequenceError::Timeout),
        Reply::Failed(e) => if op is TryReadAp || op is Flush {
            None
        } else {
            Some(SequenceError::Probe(e))
        },
        _ => None,
    }
}

/// What a reply says was read.
pub open spec fn reply_value<E>(reply: Reply<E>) -> Value {
    match reply {
        Reply::Word(word) => Value::Word(word),
        Reply::Flag(flag) => Value::Flag(flag),
        Reply::Power { system, debug } => Value::Power { system, debug },
        _ => Value::Nothing,
    }
}

/// How far a script has come.
#[verifier::ext_equal]
pub struct ScriptState<E> {
    /// The operations still to do, the next one first.
    pub remaining: Seq<ProbeOp>,
    /// What the last operation read.
    pub value: Value,
    /// The error that ended the script.
    pub error: Option<SequenceError<E>>,
}

impl<E> ScriptState<E> {
    /// The state of a script that has the operations `ops` before it.
    pub open spec fn start(ops: Seq<ProbeOp>) -> Self {
        ScriptState { remaining: ops, value: Value::Nothing, error: None }
    }

    /// The state after a reply to the next operation. A reply that does not answer that
    /// operation changes nothing.
    pub open spec fn step(self, reply: Reply<E>) -> Self {
        if self.remaining.len() == 0 || !answers(self.remaining[0], reply) {
            self
        } else if reply_error(self.remaining[0], reply) is Some {
            ScriptState {
                remaining: Seq::empty(),
                value: Value::Nothing,
                error: reply_error(self.remaining[0], reply),
            }
        } else {
            ScriptState {
                remaining: self.remaining.drop_first(),
                value: reply_value(reply),
                error: None,
            }
        }
    }

    /// What came of the script, once it has ended: what its last operation read, or an error.
    pub open spec fn outcome(self) -> Option<Result<Value, SequenceError<E>>> {
        if self.remaining.len() > 0 {
            None
        } else if self.error is Some {
            Some(Err(self.error->0))
        } else {
            Some(Ok(self.value))
        }
    }
}

fn reply_answers<E>(op: &ProbeOp, reply: &Reply<E>) -> (yes: bool)
    ensures
        yes == answers(*op, *reply),
{
    let done = matches!(reply, Reply::Done);
    let failed = matches!(reply, Reply::Failed(_));
    let timed_out = matches!(reply, Reply::TimedOut);
    match op {
        ProbeOp::ReadAp { .. } | ProbeOp::TryReadAp { .. } | ProbeOp::ReadBreakpointControl => {
            failed || matches!(reply, Reply::Word(_))
        },
        ProbeOp::ReadResetCatch => failed || matches!(reply, Reply::Flag(_)),
        ProbeOp::ReadPowerStatus => failed || matches!(reply, Reply::Power { .. }),
        ProbeOp::AwaitTxEmpty { .. } | ProbeOp::AwaitRxReady { .. } | ProbeOp::AwaitPower { .. }
        => {
            done || timed_out || failed
        },
        ProbeOp::AwaitSaciMode { .. } => done || timed_out,
        ProbeOp::Sleep { .. } => done,
        _ => done || failed,
    }
}

/// A script that is being carried out.
pub struct Script<E> {
    ops: Vec<ProbeOp>,
    next: usize,
    value: Value,
    error: Option<SequenceError<E>>,
}

impl<E> View for Script<E> {
    type V = ScriptState<E>;

    closed spec fn view(&self) -> ScriptState<E> {
        ScriptState {
            remaining: if self.error is Some {
                Seq::empty()
            } else {
                self.ops@.skip(self.next as int)
            },
            value: self.value,
            error: self.error,
        }
    }
}

impl<E> Script<E> {
    #[verifier::type_invariant]
    spec fn inv(self) -> bool {
        self.next <= self.ops@.len()
    }

    /// Starts the script of the given operations.
    pub fn start(ops: Vec<ProbeOp>) -> (script: Self)
        ensures
            script@ == ScriptState::<E>::start(ops@),
    {
        assert(ops@.skip(0) =~= ops@);
        Script { ops, next: 0, value: Value::Nothing, error: None }
    }

    /// Returns the next operation, or `None` when the script has ended.
    pub fn next_op(&self) -> (op: Option<ProbeOp>)
        ensures
            op is None <==> self@.remaining.len() == 0,
            op matches Some(op) ==> op == self@.remaining[0],
    {
        proof {
            use_type_invariant(self);
        }
        if self.error.is_none() && self.next < self.ops.len() {
            Some(self.ops[self.next])
        } else {
            None
        }
    }

    /// Takes the reply to the next operation.
    pub fn advance(&mut self, reply: Reply<E>)
        ensures
            final(self)@ == old(self)@.step(reply),
    {
        match self.next_op() {
            Some(op) => {
                if reply_answers(&op, &reply) {
                    proof {
                        use_type_invariant(&*self);
                    }
                    assert(self.ops@.skip(self.next as int).drop_first() =~= self.ops@.skip(
                        self.next + 1,
                    ));
                    assert(self.next < self.ops.len());
                    let mut value = Value::Nothing;
                    match reply {
                        Reply::TimedOut => {
                            self.error = Some(SequenceError::Timeout);
                        },
                        Reply::Failed(e) => {
                            match op {
                                ProbeOp::TryReadAp { .. } | ProbeOp::Flush => {},
                                _ => {
                                    self.error = Some(SequenceError::Probe(e));
                                },
                            }
                        },
                        Reply::Word(word) => {
                            value = Value::Word(word);
                        },
                        Reply::Flag(flag) => {
                            value = Value::Flag(flag);
                        },
                        Reply::Power { system, debug } => {
                            value = Value::Power { system, debug };
                        },
                        Reply::Done => {},
                    }
                    self.value = value;
                    self.next = self.next + 1;
                }
            },
            None => {},
        }
    }

    /// Returns what came of the script, or `None` when it has not ended.
    pub fn into_outcome(self) -> (outcome: Option<Result<Value, SequenceError<E>>>)
        ensures
            outcome == self@.outcome(),
    {
        if self.next_op().is_some() {
            None
        } else {
            match self.error {
                Some(e) => Some(Err(e)),
                None => Some(Ok(self.value)),
            }
        }
    }
}

} // verus!
