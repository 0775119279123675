//! Transaction assembly.
//!
//! A transaction binds an instruction list to a fee payer and a
//! freshness token (the recent blockhash), signed by the payer and any
//! extra credentials. The freshness token must be fetched immediately
//! before signing; submission itself is I/O and stays with the caller.

use vstd::prelude::*;
use crate::addresses::Address;
use crate::error::TransactionError;
use crate::instructions::{Instruction, InstructionView};

verus! {

#[verifier::external_type_specification]
#[verifier::external_body]
pub struct ExKeypair(solana_sdk::signature::Keypair);

#[verifier::external_type_specification]
#[verifier::external_body]
pub struct ExHash(solana_sdk::hash::Hash);

#[verifier::external_type_specification]
#[verifier::external_body]
pub struct ExTransaction(solana_sdk::transaction::Transaction);

/// Relies on solana_sdk's Signer::pubkey for Keypair: it returns the
/// credential's public key. The opaque credential supports no stronger
/// statement.
#[verifier::external_body]
pub fn keypair_pubkey(keypair: &solana_sdk::signature::Keypair) -> Address {
    let pk = solana_sdk::signer::Signer::pubkey(keypair);
    Address { bytes: pk.to_bytes() }
}

/// Number of key slots a message compiles: the fee payer plus, for
/// each instruction, its program id and its accounts. The message's
/// distinct keys are at most this many.
pub open spec fn spec_message_key_slots(ixs: Seq<InstructionView>) -> int
    decreases ixs.len(),
{
    if ixs.len() == 0 {
        1
    } else {
        spec_message_key_slots(ixs.drop_last()) + 1 + ixs.last().accounts.len()
    }
}

/// Relies on solana_sdk's Transaction::new_with_payer: it builds an
/// unsigned transaction holding exactly the given instructions with the
/// given account as fee payer. The message compiler indexes its
/// distinct keys with a byte and does not return when they overflow
/// that index, so the key slots are bounded here; the opaque
/// transaction supports no stronger statement.
#[verifier::external_body]
fn transaction_new_with_payer(
    ixs: &Vec<Instruction>,
    payer: &Address,
) -> solana_sdk::transaction::Transaction
    requires
        spec_message_key_slots(ixs@.map_values(|ix: Instruction| ix@)) <= 255,
{
    let converted: Vec<solana_sdk::instruction::Instruction> = ixs.iter().map(
        |ix| solana_sdk::instruction::Instruction {
            program_id: solana_sdk::pubkey::Pubkey::new_from_array(ix.program_id.bytes),
            accounts: ix.accounts.iter().map(|a| solana_sdk::instruction::AccountMeta {
                pubkey: solana_sdk::pubkey::Pubkey::new_from_array(a.pubkey.bytes),
                is_signer: a.is_signer, is_writable: a.is_writable,
            }).collect(),
            data: ix.data.clone(),
        },
    ).collect();
    let payer_pk = solana_sdk::pubkey::Pubkey::new_from_array(payer.bytes);
    solana_sdk::transaction::Transaction::new_with_payer(&converted, Some(&payer_pk))
}

/// Relies on solana_sdk's Transaction::try_sign: it signs the
/// transaction against the given freshness token with every given
/// credential, and reports failure instead of panicking when a signer
/// is not required by the message or signing stays incomplete.
#[verifier::external_body]
fn transaction_try_sign(
    tx: &mut solana_sdk::transaction::Transaction,
    signers: &Vec<&solana_sdk::signature::Keypair>,
    blockhash: solana_sdk::hash::Hash,
) -> Result<(), TransactionError> {
    tx.try_sign(signers, blockhash).map_err(|e| TransactionError::SigningFailed(e.to_string()))
}

/// Creates a transaction with the given blockhash, instructions, payer
/// and signers: the payer pays the fee and signs, every extra signer
/// signs too. Fails when a required signer credential is absent or not
/// required by the assembled message. The instruction list must fit
/// the message's byte-indexed key table.
pub fn create_transaction(
    blockhash: solana_sdk::hash::Hash,
    ixs: &Vec<Instruction>,
    payer: &solana_sdk::signature::Keypair,
    signers: Option<&Vec<&solana_sdk::signature::Keypair>>,
) -> Result<solana_sdk::transaction::Transaction, TransactionError>
    requires
        spec_message_key_slots(ixs@.map_values(|ix: Instruction| ix@)) <= 255,
{
    let payer_address = keypair_pubkey(payer);
    let mut tx = transaction_new_with_payer(ixs, &payer_address);
    let mut all_signers: Vec<&solana_sdk::signature::Keypair> = Vec::new();
    all_signers.push(payer);
    match signers {
        Some(extra) => {
            let mut i: usize = 0;
            while i < extra.len()
                decreases extra@.len() - i,
            {
                all_signers.push(extra[i]);
                i = i + 1;
            }
        },
        None => {},
    }
    match transaction_try_sign(&mut tx, &all_signers, blockhash) {
        Ok(()) => Ok(tx),
        Err(e) => Err(e),
    }
}

} // verus!
