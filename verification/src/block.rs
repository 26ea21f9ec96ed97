//! The block context of a simulation, taken from one fetched block header.

use crate::primitives::Address;
use vstd::prelude::*;

verus! {

/// The fields of a fetched block header that a simulation reads. A remote
/// node may leave out the number and the base fee.
#[derive(Clone, Copy, Debug, PartialEq, Eq)]
pub struct Header {
    pub number: Option<u64>,
    pub timestamp: u64,
    pub base_fee_per_gas: Option<u128>,
}

/// The block in which the simulated transaction runs.
#[derive(Clone, Copy, Debug, PartialEq, Eq)]
pub struct BlockContext {
    pub number: u64,
    pub timestamp: u64,
    pub base_fee: u128,
    pub coinbase: Address,
}

/// A header field that the simulation needs and the remote node left out.
#[derive(Clone, Copy, Debug, PartialEq, Eq)]
pub enum HeaderError {
    MissingNumber,
    MissingBaseFee,
}

/// The block context for a header: number, timestamp and base fee are the
/// header's, the coinbase is the one given and never the block's own miner.
/// A header without a number is refused first, one without a base fee next.
pub open spec fn context_of(header: Header, coinbase: Address) -> Result<BlockContext, HeaderError> {
    match header.number {
        None => Err(HeaderError::MissingNumber),
        Some(number) => match header.base_fee_per_gas {
            None => Err(HeaderError::MissingBaseFee),
            Some(base_fee) => Ok(BlockContext { number, timestamp: header.timestamp, base_fee, coinbase }),
        },
    }
}

/// Builds the block context from a fetched header and the fixed coinbase.
pub fn block_context(header: &Header, coinbase: Address) -> (r: Result<BlockContext, HeaderError>)
    ensures
        r == context_of(*header, coinbase),
{
    let number = match header.number {
        Some(number) => number,
        None => {
            return Err(HeaderError::MissingNumber);
        },
    };
    let base_fee = match header.base_fee_per_gas {
        Some(base_fee) => base_fee,
        None => {
            return Err(HeaderError::MissingBaseFee);
        },
    };
    Ok(BlockContext { number, timestamp: header.timestamp, base_fee, coinbase })
}

} // verus!
