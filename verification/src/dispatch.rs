//! The frame dispatcher's decision: interpreter or native routine.
//!
//! The decision is taken once, when a call frame is entered, and rests on the
//! identity of the running code alone. Carrying it out is the caller's part:
//! both strategies work on the same stack, memory and state.

use crate::primitives::{zero_bytes, CodeHash};
use crate::registry::ExternalContext;
use vstd::prelude::*;

verus! {

/// How one call frame is to be executed.
#[derive(Debug)]
pub enum Strategy<R> {
    /// Run this native routine in place of the interpreter loop.
    Native(R),
    /// Run the bytecode in the interpreter.
    Interpreter,
}

/// The hash under which a frame is dispatched: its own where it is known, the
/// all-zero hash where it is not.
pub open spec fn dispatch_key(code_hash: Option<CodeHash>) -> Seq<u8> {
    match code_hash {
        Some(hash) => hash@,
        None => zero_bytes(32),
    }
}

/// The strategy that a registry prescribes for code with the given hash.
pub open spec fn strategy_for<R>(registry: Map<Seq<u8>, R>, hash: Seq<u8>) -> Strategy<R> {
    if registry.contains_key(hash) {
        Strategy::Native(registry[hash])
    } else {
        Strategy::Interpreter
    }
}

/// Decides how to execute a frame whose contract has the given code hash.
pub fn select_strategy<R: Copy>(context: &ExternalContext<R>, code_hash: Option<CodeHash>) -> (r: Strategy<R>)
    ensures
        r == strategy_for(context@, dispatch_key(code_hash)),
{
    let key = match code_hash {
        Some(hash) => hash,
        None => CodeHash::unresolved(),
    };
    match context.get_function(key) {
        Some(routine) => Strategy::Native(routine),
        None => Strategy::Interpreter,
    }
}

/// Code that the registry lists always runs as its native routine, and code that
/// it does not list always runs in the interpreter. Nothing but the registry and
/// the hash enters the decision.
pub proof fn lemma_dispatch_by_code_identity<R>(registry: Map<Seq<u8>, R>, hash: Seq<u8>)
    ensures
        registry.contains_key(hash) ==> strategy_for(registry, hash) == Strategy::Native(registry[hash]),
        !registry.contains_key(hash) ==> strategy_for(registry, hash) == Strategy::<R>::Interpreter,
{
}

/// Two contracts with the same bytecode hash are dispatched alike, whatever
/// their addresses.
pub proof fn lemma_same_code_same_strategy<R>(registry: Map<Seq<u8>, R>, first: CodeHash, second: CodeHash)
    requires
        first@ == second@,
    ensures
        strategy_for(registry, dispatch_key(Some(first))) == strategy_for(registry, dispatch_key(Some(second))),
{
}

/// Registering a routine for one hash changes the strategy for that hash and for no other.
pub proof fn lemma_registration_is_local<R>(registry: Map<Seq<u8>, R>, hash: Seq<u8>, routine: R, other: Seq<u8>)
    ensures
        strategy_for(registry.insert(hash, routine), hash) == Strategy::Native(routine),
        other != hash ==> strategy_for(registry.insert(hash, routine), other) == strategy_for(registry, other),
{
}

} // verus!
