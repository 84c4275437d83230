use std::str::FromStr;

use solana_faucet::{
    has_balance, id, sol_transfer_user, sol_transfer_with_signer, transfer_with_authority,
    vault_signer_seeds, AccountInfo, AccountMeta, Instruction, ProgramError, Pubkey, Signer,
    GLOBAL_STATE_SEED, ID, MAX_SEEDS, MAX_SEED_LEN, USER_POOL_SEED, VAULT_WALLET_SEED,
};

fn key(byte: u8) -> Pubkey {
    Pubkey::new_from_array([byte; 32])
}

fn account(byte: u8, lamports: u64, minimum_balance: u64) -> AccountInfo {
    AccountInfo { key: key(byte), lamports, minimum_balance }
}

fn transfer(from: Pubkey, to: Pubkey, lamports: u64) -> Instruction {
    let mut data = vec![2u8, 0, 0, 0];
    data.extend_from_slice(&lamports.to_le_bytes());
    Instruction {
        program_id: Pubkey::new_from_array([0u8; 32]),
        accounts: vec![
            AccountMeta { pubkey: from, is_signer: true, is_writable: true },
            AccountMeta { pubkey: to, is_signer: false, is_writable: true },
        ],
        data,
    }
}

fn outside_program() -> solana_program::pubkey::Pubkey {
    solana_program::pubkey::Pubkey::new_from_array(ID)
}

fn vault(lamports: u64, minimum_balance: u64) -> (AccountInfo, u8) {
    let (address, bump) =
        solana_program::pubkey::Pubkey::find_program_address(&[b"vault-wallet"], &outside_program());
    (AccountInfo { key: Pubkey::new_from_array(address.to_bytes()), lamports, minimum_balance }, bump)
}

#[test]
fn program_identity_is_the_declared_address() {
    let declared =
        solana_program::pubkey::Pubkey::from_str("8m9fdw8FbnYeMZYqD8BNpPFZyYZJkMFc2Wu3ZdYwx2nR")
            .unwrap();
    assert_eq!(id().to_bytes(), declared.to_bytes());
    assert_eq!(ID, declared.to_bytes());
}

#[test]
fn seeds_spell_their_names() {
    assert_eq!(&GLOBAL_STATE_SEED[..], b"global-state");
    assert_eq!(&VAULT_WALLET_SEED[..], b"vault-wallet");
    assert_eq!(&USER_POOL_SEED[..], b"user-pool");
    assert_eq!(MAX_SEEDS, solana_program::pubkey::MAX_SEEDS);
    assert_eq!(MAX_SEED_LEN, solana_program::pubkey::MAX_SEED_LEN);
}

#[test]
fn custody_seeds_are_the_fixed_seed_and_the_bump() {
    assert_eq!(vault_signer_seeds(254), vec![b"vault-wallet".to_vec(), vec![254u8]]);
    assert_eq!(vault_signer_seeds(0), vec![b"vault-wallet".to_vec(), vec![0u8]]);
}

#[test]
fn pubkeys_compare_by_their_bytes() {
    let mut bytes = [3u8; 32];
    assert_eq!(Pubkey::new_from_array(bytes), key(3));
    bytes[31] = 4;
    assert_ne!(Pubkey::new_from_array(bytes), key(3));
    bytes[31] = 3;
    bytes[0] = 0;
    assert_ne!(Pubkey::new_from_array(bytes), key(3));
    assert_eq!(Pubkey::default().to_bytes(), [0u8; 32]);
}

#[test]
fn has_balance_counts_what_is_above_the_reserve() {
    let holder = account(1, 1_000, 400);
    assert!(has_balance(&holder, 0));
    assert!(has_balance(&holder, 600));
    assert!(!has_balance(&holder, 601));
    assert!(!has_balance(&holder, u64::MAX));
}

#[test]
fn has_balance_is_false_under_the_reserve() {
    let holder = account(1, 399, 400);
    assert!(!has_balance(&holder, 0));
    assert!(!has_balance(&holder, 1));
    assert!(has_balance(&account(1, 400, 400), 0));
}

#[test]
fn direct_transfer_moves_the_amount() {
    let mut source = Signer { info: account(1, 1_000, 100) };
    let mut destination = account(2, 50, 10);
    assert_eq!(
        sol_transfer_user(&mut source, &mut destination, 300),
        Ok(transfer(key(1), key(2), 300))
    );
    assert_eq!(source.info, account(1, 700, 100));
    assert_eq!(destination, account(2, 350, 10));
    assert_eq!(source.key(), key(1));
}

#[test]
fn direct_transfer_may_empty_the_source() {
    let mut source = Signer { info: account(1, 1_000, 100) };
    let mut destination = account(2, 0, 0);
    assert_eq!(
        sol_transfer_user(&mut source, &mut destination, 1_000),
        Ok(transfer(key(1), key(2), 1_000))
    );
    assert_eq!(source.info.lamports, 0);
    assert_eq!(destination.lamports, 1_000);
}

#[test]
fn direct_transfer_needs_the_funds() {
    let mut source = Signer { info: account(1, 1_000, 100) };
    let mut destination = account(2, 50, 10);
    assert_eq!(
        sol_transfer_user(&mut source, &mut destination, 1_001),
        Err(ProgramError::InsufficientFunds)
    );
    assert_eq!(source.info, account(1, 1_000, 100));
    assert_eq!(destination, account(2, 50, 10));
}

#[test]
fn direct_transfer_stops_at_the_largest_balance() {
    let mut source = Signer { info: account(1, 1_000, 100) };
    let mut destination = account(2, u64::MAX - 5, 10);
    assert_eq!(
        sol_transfer_user(&mut source, &mut destination, 6),
        Err(ProgramError::ArithmeticOverflow)
    );
    assert_eq!(source.info.lamports, 1_000);
    assert_eq!(destination.lamports, u64::MAX - 5);
    assert_eq!(
        sol_transfer_user(&mut source, &mut destination, 5),
        Ok(transfer(key(1), key(2), 5))
    );
    assert_eq!(destination.lamports, u64::MAX);
}

#[test]
fn authority_must_be_the_source() {
    let mut source = account(1, 1_000, 100);
    let mut destination = account(2, 0, 0);
    assert_eq!(
        transfer_with_authority(&mut source, &mut destination, Some(key(2)), 10),
        Err(ProgramError::MissingRequiredSignature)
    );
    assert_eq!(
        transfer_with_authority(&mut source, &mut destination, None, 10),
        Err(ProgramError::InvalidSeeds)
    );
    assert_eq!(source, account(1, 1_000, 100));
    assert_eq!(destination, account(2, 0, 0));
    assert_eq!(
        transfer_with_authority(&mut source, &mut destination, Some(key(1)), 10),
        Ok(transfer(key(1), key(2), 10))
    );
    assert_eq!(source.lamports, 990);
    assert_eq!(destination.lamports, 10);
}

#[test]
fn authority_is_checked_before_the_funds() {
    let mut source = account(1, 5, 0);
    let mut destination = account(2, 0, 0);
    assert_eq!(
        transfer_with_authority(&mut source, &mut destination, Some(key(9)), 10),
        Err(ProgramError::MissingRequiredSignature)
    );
    assert_eq!(
        transfer_with_authority(&mut source, &mut destination, Some(key(1)), 10),
        Err(ProgramError::InsufficientFunds)
    );
}

#[test]
fn custody_seeds_authorize_the_custody_address() {
    let (mut custody, bump) = vault(5_000, 1_000);
    let before = custody;
    let mut destination = account(2, 1, 0);
    assert_eq!(
        sol_transfer_with_signer(&mut custody, &mut destination, &vault_signer_seeds(bump), 4_500),
        Ok(transfer(before.key, key(2), 4_500))
    );
    assert_eq!(custody.lamports, 500);
    assert_eq!(custody.key, before.key);
    assert_eq!(destination.lamports, 4_501);
}

#[test]
fn seeds_of_another_address_authorize_nothing() {
    let (mut custody, bump) = vault(5_000, 1_000);
    let mut destination = account(2, 1, 0);
    let seeds = vec![b"user-pool".to_vec(), vec![bump]];
    let derived = solana_program::pubkey::Pubkey::create_program_address(
        &[b"user-pool", &[bump]],
        &outside_program(),
    );
    let expected = match derived {
        Ok(_) => ProgramError::MissingRequiredSignature,
        Err(_) => ProgramError::InvalidSeeds,
    };
    assert_eq!(sol_transfer_with_signer(&mut custody, &mut destination, &seeds, 10), Err(expected));
    assert_eq!(custody.lamports, 5_000);
    assert_eq!(destination.lamports, 1);
}

#[test]
fn the_program_itself_is_not_what_the_seeds_derive() {
    let mut source = AccountInfo { key: id(), lamports: 5_000, minimum_balance: 0 };
    let mut destination = account(2, 1, 0);
    let (_, bump) = vault(0, 0);
    assert_eq!(
        sol_transfer_with_signer(&mut source, &mut destination, &vault_signer_seeds(bump), 10),
        Err(ProgramError::MissingRequiredSignature)
    );
    assert_eq!(source.lamports, 5_000);
}

#[test]
fn every_bump_answers_as_the_derivation_does() {
    let (custody, _) = vault(5_000, 0);
    let mut accepted = 0;
    for bump in 0..=255u8 {
        let mut source = custody;
        let mut destination = account(2, 0, 0);
        let derived = solana_program::pubkey::Pubkey::create_program_address(
            &[b"vault-wallet", &[bump]],
            &outside_program(),
        );
        let expected = match derived {
            Ok(address) if address.to_bytes() == custody.key.to_bytes() => {
                Ok(transfer(custody.key, key(2), 1))
            }
            Ok(_) => Err(ProgramError::MissingRequiredSignature),
            Err(_) => Err(ProgramError::InvalidSeeds),
        };
        let answer =
            sol_transfer_with_signer(&mut source, &mut destination, &vault_signer_seeds(bump), 1);
        assert_eq!(answer, expected);
        if answer.is_ok() {
            accepted += 1;
        }
    }
    assert_eq!(accepted, 1);
}

#[test]
fn too_many_seeds_derive_nothing() {
    let mut source = account(1, 100, 0);
    let mut destination = account(2, 0, 0);
    let seeds: Vec<Vec<u8>> = (0..17u8).map(|i| vec![i]).collect();
    assert_eq!(
        sol_transfer_with_signer(&mut source, &mut destination, &seeds, 1),
        Err(ProgramError::InvalidSeeds)
    );
    assert_eq!(source.lamports, 100);
}

#[test]
fn a_seed_too_long_derives_nothing() {
    let mut source = account(1, 100, 0);
    let mut destination = account(2, 0, 0);
    let seeds = vec![vec![1u8; 33]];
    assert_eq!(
        sol_transfer_with_signer(&mut source, &mut destination, &seeds, 1),
        Err(ProgramError::InvalidSeeds)
    );
    assert_eq!(destination.lamports, 0);
}

#[test]
fn instruction_is_the_system_transfer() {
    let mut source = Signer { info: account(1, u64::MAX, 0) };
    let mut destination = account(2, 0, 0);
    let amount = 0x0102_0304_0506_0708u64;
    let made = sol_transfer_user(&mut source, &mut destination, amount).unwrap();
    let from = solana_program::pubkey::Pubkey::new_from_array([1u8; 32]);
    let to = solana_program::pubkey::Pubkey::new_from_array([2u8; 32]);
    assert_eq!(made.program_id.to_bytes(), solana_program::system_program::ID.to_bytes());
    assert_eq!(made.program_id.to_bytes(), [0u8; 32]);
    assert_eq!(made.accounts.len(), 2);
    assert_eq!(made.accounts[0].pubkey.to_bytes(), from.to_bytes());
    assert!(made.accounts[0].is_signer);
    assert!(made.accounts[0].is_writable);
    assert_eq!(made.accounts[1].pubkey.to_bytes(), to.to_bytes());
    assert!(!made.accounts[1].is_signer);
    assert!(made.accounts[1].is_writable);
    assert_eq!(made.data, vec![2, 0, 0, 0, 8, 7, 6, 5, 4, 3, 2, 1]);
}

#[test]
fn instruction_of_an_empty_transfer() {
    let mut source = Signer { info: account(1, 0, 0) };
    let mut destination = account(2, 0, 0);
    let made = sol_transfer_user(&mut source, &mut destination, 0).unwrap();
    assert_eq!(made, transfer(key(1), key(2), 0));
    assert_eq!(made.data, vec![2, 0, 0, 0, 0, 0, 0, 0, 0, 0, 0, 0]);
    assert_eq!(source.info.lamports, 0);
    assert_eq!(destination.lamports, 0);
}
