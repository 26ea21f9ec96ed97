//! The transaction that is simulated, and what its execution came to.

use crate::block::BlockContext;
use crate::primitives::{zero_bytes, Address, Word};
use vstd::prelude::*;

verus! {

/// The one transaction of a simulation: a call from `caller` to `target`.
#[derive(Clone, Debug, PartialEq, Eq)]
pub struct TransactionDescriptor {
    pub caller: Address,
    pub target: Address,
    pub calldata: Vec<u8>,
    pub gas_limit: u64,
    pub gas_price: u128,
    pub value: Word,
}

impl TransactionDescriptor {
    /// A call that transfers no value and pays exactly the block's base fee.
    pub fn call(caller: Address, target: Address, calldata: Vec<u8>, gas_limit: u64, block: &BlockContext) -> (r:
        TransactionDescriptor)
        ensures
            r.caller == caller,
            r.target == target,
            r.calldata == calldata,
            r.gas_limit == gas_limit,
            r.gas_price == block.base_fee,
            r.value@ == zero_bytes(32),
    {
        TransactionDescriptor { caller, target, calldata, gas_limit, gas_price: block.base_fee, value: Word::zero() }
    }
}

/// Why execution ran out of gas.
#[derive(Clone, Copy, Debug, PartialEq, Eq)]
pub enum OutOfGas {
    Basic,
    MemoryLimit,
    Memory,
    Precompile,
    InvalidOperand,
}

/// Why execution halted: an exceptional end that consumes all gas.
#[derive(Clone, Copy, Debug, PartialEq, Eq)]
pub enum HaltReason {
    OutOfGas(OutOfGas),
    OpcodeNotFound,
    InvalidEFOpcode,
    InvalidJump,
    NotActivated,
    StackUnderflow,
    StackOverflow,
    OutOfOffset,
    CreateCollision,
    PrecompileError,
    NonceOverflow,
    CreateContractSizeLimit,
    CreateContractStartingWithEF,
    CreateInitCodeSizeLimit,
    OverflowPayment,
    StateChangeDuringStaticCall,
    CallNotAllowedInsideStatic,
    OutOfFunds,
    CallTooDeep,
    EofAuxDataOverflow,
    EofAuxDataTooSmall,
    EOFFunctionStackOverflow,
}

/// What a successful execution produced.
#[derive(Clone, Debug, PartialEq, Eq)]
pub enum Output {
    /// The data that a call returned.
    Call(Vec<u8>),
    /// The code that a creation deployed, and where.
    Create(Vec<u8>, Option<Address>),
}

/// How the execution of the transaction ended. Every execution ends in
/// exactly one of these three ways.
#[derive(Clone, Debug, PartialEq, Eq)]
pub enum ExecutionOutcome {
    Success { output: Output },
    Revert { return_data: Vec<u8> },
    Halt { reason: HaltReason },
}

/// A simulation whose transaction did not succeed, with what it left behind.
#[derive(Clone, Debug, PartialEq, Eq)]
pub enum SimulationFailure {
    Revert { return_data: Vec<u8> },
    Halt { reason: HaltReason },
}

/// The bytes that an output carries.
pub open spec fn output_data(output: Output) -> Seq<u8> {
    match output {
        Output::Call(data) => data@,
        Output::Create(data, _) => data@,
    }
}

/// Whether `report` is the final report for `outcome`: the output bytes of a
/// success, and a failure that carries the payload of a revert or the reason
/// of a halt.
pub open spec fn reports(outcome: ExecutionOutcome, report: Result<Vec<u8>, SimulationFailure>) -> bool {
    match outcome {
        ExecutionOutcome::Success { output } => report matches Ok(data) && data@ == output_data(output),
        ExecutionOutcome::Revert { return_data } => report matches Err(SimulationFailure::Revert { return_data: payload })
            && payload@ == return_data@,
        ExecutionOutcome::Halt { reason } => report matches Err(SimulationFailure::Halt { reason: why }) && why
            == reason,
    }
}

/// Turns the outcome of the execution into the final report.
pub fn classify(outcome: ExecutionOutcome) -> (r: Result<Vec<u8>, SimulationFailure>)
    ensures
        reports(outcome, r),
{
    match outcome {
        ExecutionOutcome::Success { output } => match output {
            Output::Call(data) => Ok(data),
            Output::Create(data, _) => Ok(data),
        },
        ExecutionOutcome::Revert { return_data } => Err(SimulationFailure::Revert { return_data }),
        ExecutionOutcome::Halt { reason } => Err(SimulationFailure::Halt { reason }),
    }
}

/// An outcome is a success, a revert or a halt, and no two of them at once.
pub proof fn lemma_outcome_is_one_of_three(outcome: ExecutionOutcome)
    ensures
        outcome is Success || outcome is Revert || outcome is Halt,
        !(outcome is Success && outcome is Revert),
        !(outcome is Success && outcome is Halt),
        !(outcome is Revert && outcome is Halt),
{
}

/// No outcome is swallowed: the report is the output exactly when the
/// execution succeeded, and otherwise names the same way of failing, with the
/// same payload or reason.
pub proof fn lemma_report_keeps_outcome(outcome: ExecutionOutcome, report: Result<Vec<u8>, SimulationFailure>)
    requires
        reports(outcome, report),
    ensures
        report is Ok <==> outcome is Success,
        outcome is Revert <==> report is Err && report->Err_0 is Revert,
        outcome is Halt <==> report is Err && report->Err_0 is Halt,
        outcome is Halt ==> report->Err_0->reason == outcome->reason,
        outcome is Revert ==> report->Err_0->return_data@ == outcome->return_data@,
{
}

} // verus!
