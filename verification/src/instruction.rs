use vstd::prelude::*;
use crate::pubkey::Pubkey;

verus! {

/// One account that an instruction names, and what the instruction needs of it.
#[derive(Clone, Copy, Debug, PartialEq, Eq)]
pub struct AccountMeta {
    pub pubkey: Pubkey,
    /// The account's holder must have signed.
    pub is_signer: bool,
    /// The instruction may change the account.
    pub is_writable: bool,
}

/// A request to a program of the ledger: the program's address, the accounts
/// it is to work on, and the bytes that tell it what to do.
#[derive(Clone, Debug, PartialEq, Eq)]
pub struct Instruction {
    pub program_id: Pubkey,
    pub accounts: Vec<AccountMeta>,
    pub data: Vec<u8>,
}

/// The address of the ledger's system program: thirty-two zero bytes.
pub open spec fn system_program_id() -> Seq<u8> {
    Seq::new(32, |i: int| 0u8)
}

/// The data of the instruction that
/// `anchor_lang::solana_program::system_instruction::transfer` builds for
/// `lamports`: the bytes by which the system program is told how much to
/// move. They depend on the amount alone, not on the two accounts.
pub uninterp spec fn transfer_data(lamports: u64) -> Seq<u8>;

/// `ix` asks the system program to move `lamports` from the account `from`,
/// whose holder signs, to the account `to`.
pub open spec fn is_system_transfer(ix: Instruction, from: Pubkey, to: Pubkey, lamports: u64) -> bool {
    &&& ix.program_id@ == system_program_id()
    &&& ix.accounts@.len() == 2
    &&& ix.accounts@[0] == (AccountMeta { pubkey: from, is_signer: true, is_writable: true })
    &&& ix.accounts@[1] == (AccountMeta { pubkey: to, is_signer: false, is_writable: true })
    &&& ix.data@ == transfer_data(lamports)
}

/// Calls `anchor_lang::solana_program::system_instruction::transfer` and hands
/// its result on field by field.
///
/// Believed, not proved: the instruction is addressed to the system program,
/// names exactly two accounts, `from` as a writable signer and then `to` as
/// writable and not signing, and carries the data that the outside function
/// encodes for a transfer of `lamports`.
#[verifier::external_body]
pub(crate) fn system_transfer(from: &Pubkey, to: &Pubkey, lamports: u64) -> (ix: Instruction)
    ensures
        ix.program_id@ == system_program_id(),
        ix.accounts@.len() == 2,
        ix.accounts@[0] == (AccountMeta { pubkey: *from, is_signer: true, is_writable: true }),
        ix.accounts@[1] == (AccountMeta { pubkey: *to, is_signer: false, is_writable: true }),
        ix.data@ == transfer_data(lamports),
{
    let made = anchor_lang::solana_program::system_instruction::transfer(
        &anchor_lang::prelude::Pubkey::new_from_array(from.bytes),
        &anchor_lang::prelude::Pubkey::new_from_array(to.bytes),
        lamports,
    );
    let mut accounts: Vec<AccountMeta> = Vec::new();
    for m in made.accounts.iter() {
        let pubkey = Pubkey { bytes: m.pubkey.to_bytes() };
        accounts.push(AccountMeta { pubkey, is_signer: m.is_signer, is_writable: m.is_writable });
    }
    Instruction { program_id: Pubkey { bytes: made.program_id.to_bytes() }, accounts, data: made.data }
}

} // verus!
