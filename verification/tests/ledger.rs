use accountability_program::ledger::transfer;
use accountability_program::{
    stake_tokens, AccountInfo, AccountMeta, Challenge, ChallengeAccount, LedgerError, Pubkey,
    StakeTokens,
};

fn staking(participant: Pubkey, challenge: Pubkey, balance: u64) -> StakeTokens {
    StakeTokens {
        challenge: ChallengeAccount {
            key: challenge,
            lamports: 0,
            record: Challenge {
                authority: Pubkey { bytes: [1; 32] },
                challenge_id: "c".to_string(),
                total_stake: 0,
                is_active: true,
            },
        },
        participant: AccountInfo { key: participant, lamports: balance },
    }
}

#[test]
fn transfer_moves_between_balances() {
    let mut from: u64 = 10;
    let mut to: u64 = 3;
    assert_eq!(transfer(&mut from, &mut to, 4), Ok(()));
    assert_eq!((from, to), (6, 7));
    assert_eq!(transfer(&mut from, &mut to, 0), Ok(()));
    assert_eq!((from, to), (6, 7));
    assert_eq!(transfer(&mut from, &mut to, 6), Ok(()));
    assert_eq!((from, to), (0, 13));
}

#[test]
fn transfer_refuses_an_overdraw() {
    let mut from: u64 = 10;
    let mut to: u64 = 3;
    assert_eq!(transfer(&mut from, &mut to, 11), Err(LedgerError::InsufficientFunds));
    assert_eq!((from, to), (10, 3));
}

#[test]
fn transfer_refuses_an_overflow() {
    let mut from: u64 = 10;
    let mut to: u64 = u64::MAX - 1;
    assert_eq!(transfer(&mut from, &mut to, 2), Err(LedgerError::ArithmeticOverflow));
    assert_eq!((from, to), (10, u64::MAX - 1));
    assert_eq!(transfer(&mut from, &mut to, 1), Ok(()));
    assert_eq!((from, to), (9, u64::MAX));
}

#[test]
fn transfer_reports_the_overdraw_first() {
    let mut from: u64 = 0;
    let mut to: u64 = u64::MAX;
    assert_eq!(transfer(&mut from, &mut to, 1), Err(LedgerError::InsufficientFunds));
    assert_eq!((from, to), (0, u64::MAX));
}

#[test]
fn pubkeys_compare_by_their_bytes() {
    let a = Pubkey { bytes: [7; 32] };
    let mut bytes = [7u8; 32];
    assert_eq!(a, Pubkey { bytes });
    bytes[17] = 8;
    assert_ne!(a, Pubkey { bytes });
    bytes[17] = 7;
    bytes[31] = 0;
    assert_ne!(a, Pubkey { bytes });
}

#[test]
fn stake_yields_the_system_transfer() {
    let mut from = [0u8; 32];
    let mut to = [0u8; 32];
    for i in 0..32 {
        from[i] = i as u8 + 1;
        to[i] = 200 - i as u8;
    }
    let participant = Pubkey { bytes: from };
    let challenge = Pubkey { bytes: to };
    let mut accounts = staking(participant, challenge, 1_000);
    let ix = stake_tokens(&mut accounts, 500).unwrap();
    assert_eq!(ix.program_id, Pubkey { bytes: [0; 32] });
    assert_eq!(
        ix.accounts,
        vec![
            AccountMeta { pubkey: participant, is_signer: true, is_writable: true },
            AccountMeta { pubkey: challenge, is_signer: false, is_writable: true },
        ]
    );
    assert_eq!(ix.data, vec![2, 0, 0, 0, 0xf4, 0x01, 0, 0, 0, 0, 0, 0]);
}

#[test]
fn stake_instruction_is_the_crates_own() {
    let participant = Pubkey { bytes: [11; 32] };
    let challenge = Pubkey { bytes: [22; 32] };
    let amount: u64 = 0x0102_0304_0506_0708;
    let mut accounts = staking(participant, challenge, u64::MAX);
    let ix = stake_tokens(&mut accounts, amount).unwrap();
    let theirs = anchor_lang::solana_program::system_instruction::transfer(
        &anchor_lang::prelude::Pubkey::new_from_array([11; 32]),
        &anchor_lang::prelude::Pubkey::new_from_array([22; 32]),
        amount,
    );
    assert_eq!(ix.program_id.bytes, theirs.program_id.to_bytes());
    assert_eq!(ix.program_id.bytes, anchor_lang::solana_program::system_program::ID.to_bytes());
    assert_eq!(ix.accounts.len(), theirs.accounts.len());
    for i in 0..ix.accounts.len() {
        assert_eq!(ix.accounts[i].pubkey.bytes, theirs.accounts[i].pubkey.to_bytes());
        assert_eq!(ix.accounts[i].is_signer, theirs.accounts[i].is_signer);
        assert_eq!(ix.accounts[i].is_writable, theirs.accounts[i].is_writable);
    }
    assert_eq!(ix.data, theirs.data);
    assert_eq!(ix.data, vec![2, 0, 0, 0, 8, 7, 6, 5, 4, 3, 2, 1]);
}

#[test]
fn no_instruction_where_stake_is_refused() {
    let mut accounts = staking(Pubkey { bytes: [11; 32] }, Pubkey { bytes: [22; 32] }, 10);
    assert!(stake_tokens(&mut accounts, 11).is_err());
    accounts.challenge.record.is_active = false;
    assert!(stake_tokens(&mut accounts, 1).is_err());
}
