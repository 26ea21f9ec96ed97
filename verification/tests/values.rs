//! Value types, the block context, slot derivation and outcome classification.

use alloy::primitives::U256;
use alloy::sol_types::SolValue;
use forksim::block::{block_context, BlockContext, Header, HeaderError};
use forksim::digest::{mapping_key, mapping_slot};
use forksim::outcome::{classify, ExecutionOutcome, HaltReason, OutOfGas, Output, SimulationFailure, TransactionDescriptor};
use forksim::primitives::{all_zero, bytes_match, Account, Address, CodeHash, Word};

fn address(last: u8) -> Address {
    let mut bytes = [0u8; 20];
    bytes[19] = last;
    Address::new(bytes)
}

#[test]
fn addresses_compare_by_bytes() {
    assert!(address(1).same(&address(1)));
    assert!(!address(1).same(&address(2)));
    let mut first = [0u8; 20];
    first[0] = 1;
    assert!(!Address::new(first).same(&Address::new([0u8; 20])));
}

#[test]
fn words_compare_by_bytes() {
    assert!(Word::zero().is_zero());
    assert!(Word::new([0u8; 32]).same(&Word::zero()));
    let mut one = [0u8; 32];
    one[31] = 1;
    assert!(!Word::new(one).is_zero());
    assert!(!Word::new(one).same(&Word::zero()));
    let mut top = [0u8; 32];
    top[0] = 0x80;
    assert!(!Word::new(top).is_zero());
}

#[test]
fn byte_helpers_agree_with_equality() {
    assert!(bytes_match(&[1u8, 2, 3], &[1u8, 2, 3]));
    assert!(!bytes_match(&[1u8, 2, 3], &[1u8, 2, 4]));
    assert!(bytes_match::<0>(&[], &[]));
    assert!(all_zero(&[0u8; 7]));
    assert!(!all_zero(&[0u8, 0, 1]));
    assert!(all_zero::<0>(&[]));
}

#[test]
fn hash_of_empty_code_is_the_keccak_of_nothing() {
    assert_eq!(CodeHash::of_empty_code().bytes, alloy::primitives::keccak256([]).0);
    assert_eq!(CodeHash::of_empty_code().bytes, revm::primitives::KECCAK_EMPTY.0);
    assert_eq!(CodeHash::unresolved().bytes, [0u8; 32]);
    assert!(!CodeHash::of_empty_code().same(&CodeHash::unresolved()));
    assert!(CodeHash::new([3u8; 32]).same(&CodeHash::new([3u8; 32])));
}

#[test]
fn empty_account_has_no_funds_and_no_code() {
    let empty = Account::empty();
    assert_eq!(empty.balance, Word::zero());
    assert_eq!(empty.nonce, 0);
    assert_eq!(empty.code_hash, CodeHash::of_empty_code());
    assert_eq!(empty.code, Some(Vec::new()));
}

#[test]
fn account_keeps_what_it_is_given() {
    let account = Account::new(Word::new([7u8; 32]), 12, CodeHash::new([9u8; 32]), vec![1, 2, 3]);
    assert_eq!(account.balance.bytes, [7u8; 32]);
    assert_eq!(account.nonce, 12);
    assert_eq!(account.code_hash.bytes, [9u8; 32]);
    assert_eq!(account.code, Some(vec![1, 2, 3]));
}

#[test]
fn block_context_takes_the_header_and_the_fixed_coinbase() {
    let header = Header { number: Some(20483940), timestamp: 1723100000, base_fee_per_gas: Some(3_000_000_000) };
    let context = block_context(&header, address(0xcb)).unwrap();
    assert_eq!(
        context,
        BlockContext { number: 20483940, timestamp: 1723100000, base_fee: 3_000_000_000, coinbase: address(0xcb) }
    );
}

#[test]
fn header_without_number_is_refused() {
    let header = Header { number: None, timestamp: 5, base_fee_per_gas: Some(1) };
    assert_eq!(block_context(&header, address(1)), Err(HeaderError::MissingNumber));
}

#[test]
fn header_without_base_fee_is_refused() {
    let header = Header { number: Some(1), timestamp: 5, base_fee_per_gas: None };
    assert_eq!(block_context(&header, address(1)), Err(HeaderError::MissingBaseFee));
}

#[test]
fn header_without_both_reports_the_number() {
    let header = Header { number: None, timestamp: 5, base_fee_per_gas: None };
    assert_eq!(block_context(&header, address(1)), Err(HeaderError::MissingNumber));
}

#[test]
fn block_context_accepts_extreme_values() {
    let header = Header { number: Some(u64::MAX), timestamp: 0, base_fee_per_gas: Some(u128::MAX) };
    let context = block_context(&header, address(0)).unwrap();
    assert_eq!(context.number, u64::MAX);
    assert_eq!(context.timestamp, 0);
    assert_eq!(context.base_fee, u128::MAX);
}

#[test]
fn call_pays_the_base_fee_and_sends_no_value() {
    let block = BlockContext { number: 1, timestamp: 2, base_fee: 777, coinbase: address(3) };
    let tx = TransactionDescriptor::call(address(1), address(2), vec![0xde, 0xad], 700000, &block);
    assert_eq!(tx.caller, address(1));
    assert_eq!(tx.target, address(2));
    assert_eq!(tx.calldata, vec![0xde, 0xad]);
    assert_eq!(tx.gas_limit, 700000);
    assert_eq!(tx.gas_price, 777);
    assert_eq!(tx.value, Word::zero());
}

#[test]
fn mapping_key_is_padded_address_then_position() {
    let mut holder = [0u8; 20];
    for (i, byte) in holder.iter_mut().enumerate() {
        *byte = 0xa0 + i as u8;
    }
    let mut position = [0u8; 32];
    position[31] = 3;
    let key = mapping_key(&Address::new(holder), &Word::new(position));
    assert_eq!(key.len(), 64);
    assert_eq!(&key[..12], &[0u8; 12]);
    assert_eq!(&key[12..32], &holder);
    assert_eq!(&key[32..], &position);
}

#[test]
fn mapping_key_is_the_abi_encoding_of_the_pair() {
    let mut holder = [0u8; 20];
    holder[0] = 0x12;
    holder[19] = 0x34;
    let mut position = [0u8; 32];
    position[31] = 3;
    let encoded = (alloy::primitives::Address::new(holder), U256::from(3)).abi_encode();
    assert_eq!(mapping_key(&Address::new(holder), &Word::new(position)), encoded);
}

#[test]
fn mapping_slot_of_zeros_is_the_known_digest() {
    let slot = mapping_slot(&Address::new([0u8; 20]), &Word::zero());
    let expected: [u8; 32] = [
        0xad, 0x32, 0x28, 0xb6, 0x76, 0xf7, 0xd3, 0xcd, 0x42, 0x84, 0xa5, 0x44, 0x3f, 0x17, 0xf1, 0x96,
        0x2b, 0x36, 0xe4, 0x91, 0xb3, 0x0a, 0x40, 0xb2, 0x40, 0x58, 0x49, 0xe5, 0x97, 0xba, 0x5f, 0xb5,
    ];
    assert_eq!(slot.bytes, expected);
}

#[test]
fn mapping_slot_is_the_hash_of_the_encoded_pair() {
    let mut holder = [0u8; 20];
    holder[3] = 0x77;
    let mut position = [0u8; 32];
    position[31] = 3;
    let encoded = (alloy::primitives::Address::new(holder), U256::from(3)).abi_encode();
    let expected: U256 = alloy::primitives::keccak256(encoded).into();
    let slot = mapping_slot(&Address::new(holder), &Word::new(position));
    assert_eq!(slot.bytes, expected.to_be_bytes::<32>());
    assert_ne!(&slot.bytes[..], &mapping_key(&Address::new(holder), &Word::new(position))[..32]);
}

#[test]
fn success_of_a_call_reports_its_data() {
    let outcome = ExecutionOutcome::Success { output: Output::Call(vec![1, 2, 3]) };
    assert_eq!(classify(outcome), Ok(vec![1, 2, 3]));
}

#[test]
fn success_of_a_creation_reports_the_code() {
    let outcome = ExecutionOutcome::Success { output: Output::Create(vec![9, 9], Some(address(4))) };
    assert_eq!(classify(outcome), Ok(vec![9, 9]));
    let outcome = ExecutionOutcome::Success { output: Output::Create(vec![], None) };
    assert_eq!(classify(outcome), Ok(vec![]));
}

#[test]
fn revert_is_a_failure_with_its_payload() {
    let outcome = ExecutionOutcome::Revert { return_data: vec![0x08, 0xc3, 0x79, 0xa0] };
    assert_eq!(classify(outcome), Err(SimulationFailure::Revert { return_data: vec![0x08, 0xc3, 0x79, 0xa0] }));
}

#[test]
fn empty_revert_is_still_a_failure() {
    let outcome = ExecutionOutcome::Revert { return_data: vec![] };
    assert_eq!(classify(outcome), Err(SimulationFailure::Revert { return_data: vec![] }));
}

#[test]
fn halt_is_a_failure_with_its_reason() {
    let outcome = ExecutionOutcome::Halt { reason: HaltReason::OutOfGas(OutOfGas::Basic) };
    assert_eq!(classify(outcome), Err(SimulationFailure::Halt { reason: HaltReason::OutOfGas(OutOfGas::Basic) }));
    let outcome = ExecutionOutcome::Halt { reason: HaltReason::InvalidJump };
    assert_eq!(classify(outcome), Err(SimulationFailure::Halt { reason: HaltReason::InvalidJump }));
}
