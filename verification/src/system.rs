//! The instruction that moves funds from one party to another.

use vstd::prelude::*;
use vstd::bytes::spec_u64_to_le_bytes;
use crate::key::Key;
use anchor_lang::prelude::Pubkey;
use anchor_lang::solana_program::system_instruction;

verus! {

/// One account that an instruction touches.
#[derive(Clone, Copy, Debug, PartialEq, Eq)]
pub struct AccountMeta {
    /// The account.
    pub pubkey: Key,
    /// The account has to sign.
    pub is_signer: bool,
    /// The instruction may change the account.
    pub is_writable: bool,
}

/// An instruction for another program: which program, on which accounts, with
/// what data.
#[derive(Debug, PartialEq, Eq)]
pub struct Instruction {
    /// The program that carries the instruction out.
    pub program_id: Key,
    /// The accounts that it touches, in order.
    pub accounts: Vec<AccountMeta>,
    /// What the program is asked to do, in its own encoding.
    pub data: Vec<u8>,
}

/// The data of a transfer of `lamports`, as the system program reads it: the
/// number 2, which stands for a transfer, in four bytes, then the amount in
/// eight, each with the lowest byte first.
pub open spec fn transfer_data(lamports: u64) -> Seq<u8> {
    seq![2u8, 0u8, 0u8, 0u8] + spec_u64_to_le_bytes(lamports)
}

/// The id of the system program: thirty-two zero bytes.
pub open spec fn system_program_id() -> Seq<u8> {
    Seq::new(32, |i: int| 0u8)
}

/// `ix` asks the system program to move `lamports` from `from`, who signs, to `to`.
pub open spec fn is_transfer(ix: Instruction, from: Seq<u8>, to: Seq<u8>, lamports: u64) -> bool {
    &&& ix.program_id@ == system_program_id()
    &&& ix.accounts@.len() == 2
    &&& ix.accounts@[0].pubkey@ == from
    &&& ix.accounts@[0].is_signer
    &&& ix.accounts@[0].is_writable
    &&& ix.accounts@[1].pubkey@ == to
    &&& !ix.accounts@[1].is_signer
    &&& ix.accounts@[1].is_writable
    &&& ix.data@ == transfer_data(lamports)
}

/// `system_instruction::transfer`: the instruction for the system program, on the
/// sender as a writable signer and the recipient as writable, whose data is the
/// number of the transfer variant followed by the amount, both in fixed width
/// with the lowest byte first.
#[verifier::external_body]
pub(crate) fn transfer(from: &Key, to: &Key, lamports: u64) -> (ix: Instruction)
    ensures
        is_transfer(ix, from@, to@, lamports),
{
    let from = Pubkey::new_from_array(from.bytes);
    let to = Pubkey::new_from_array(to.bytes);
    let ix = system_instruction::transfer(&from, &to, lamports);
    let accounts = ix.accounts.iter().map(|meta| AccountMeta {
        pubkey: Key::new(meta.pubkey.to_bytes()),
        is_signer: meta.is_signer,
        is_writable: meta.is_writable,
    }).collect();
    Instruction { program_id: Key::new(ix.program_id.to_bytes()), accounts, data: ix.data }
}

} // verus!
