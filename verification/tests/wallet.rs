use multisig_wallet::create_proposal;
use multisig_wallet::create_wallet;
use multisig_wallet::error::WalletError;
use multisig_wallet::revoke_vote;
use multisig_wallet::state::{ProposalType, TokenAccountInfo};
use multisig_wallet::vote;

const PROGRAM_ID: [u8; 32] = [7u8; 32];

fn addr(tag: u8) -> [u8; 32] {
    [tag; 32]
}

fn pda(wallet: &[u8; 32], owner: &[u8; 32]) -> [u8; 32] {
    let program = anchor_lang::solana_program::pubkey::Pubkey::new_from_array(PROGRAM_ID);
    let (key, _bump) = anchor_lang::solana_program::pubkey::Pubkey::find_program_address(
        &["owner".as_bytes(), wallet.as_ref(), owner.as_ref()],
        &program,
    );
    key.to_bytes()
}

#[test]
fn create_wallet_assigns_ids_in_order() {
    let wallet_key = addr(1);
    let creator = addr(2);
    let owners = vec![addr(3), addr(4)];
    let auth_accounts: Vec<[u8; 32]> = owners.iter().map(|o| pda(&wallet_key, o)).collect();
    let (config, auths) = create_wallet(
        &PROGRAM_ID,
        &wallet_key,
        &creator,
        2,
        3,
        &owners,
        &auth_accounts,
        600,
        1_000,
    )
    .unwrap();
    assert_eq!(config.m, 2);
    assert_eq!(config.n, 3);
    assert_eq!(config.owners, 3);
    assert_eq!(config.proposal_lifetime, 600);
    assert!(config.owner_identities.test_bit(0));
    assert!(config.owner_identities.test_bit(1));
    assert!(config.owner_identities.test_bit(2));
    assert!(!config.owner_identities.test_bit(3));
    assert_eq!(config.owner_identities.count(), 3);
    assert_eq!(auths.len(), 3);
    assert_eq!(auths[0].owner, creator);
    assert_eq!(auths[0].id, 0);
    assert_eq!(auths[1].owner, addr(3));
    assert_eq!(auths[1].id, 1);
    assert_eq!(auths[2].owner, addr(4));
    assert_eq!(auths[2].id, 2);
    for a in &auths {
        assert_eq!(a.wallet, wallet_key);
        assert_eq!(a.added_time, 1_000);
    }
}

#[test]
fn create_wallet_rejects_m_greater_than_n() {
    let wallet_key = addr(1);
    let creator = addr(2);
    let r = create_wallet(&PROGRAM_ID, &wallet_key, &creator, 3, 2, &vec![], &vec![], 600, 0);
    assert_eq!(r.err(), Some(WalletError::InvalidParameters));
}

#[test]
fn create_wallet_rejects_zero_parameters() {
    let wallet_key = addr(1);
    let creator = addr(2);
    let r = create_wallet(&PROGRAM_ID, &wallet_key, &creator, 0, 3, &vec![], &vec![], 600, 0);
    assert_eq!(r.err(), Some(WalletError::ZeroParameters));
    let r = create_wallet(&PROGRAM_ID, &wallet_key, &creator, 1, 0, &vec![], &vec![], 600, 0);
    assert_eq!(r.err(), Some(WalletError::ZeroParameters));
}

#[test]
fn create_wallet_rejects_size_mismatch() {
    let wallet_key = addr(1);
    let creator = addr(2);
    let owners = vec![addr(3)];
    let r = create_wallet(&PROGRAM_ID, &wallet_key, &creator, 1, 1, &owners, &vec![], 600, 0);
    assert_eq!(r.err(), Some(WalletError::SizeMismatch));
}

#[test]
fn create_wallet_rejects_short_lifetime() {
    let wallet_key = addr(1);
    let creator = addr(2);
    let r = create_wallet(&PROGRAM_ID, &wallet_key, &creator, 1, 1, &vec![], &vec![], 599, 0);
    assert_eq!(r.err(), Some(WalletError::TooShortDuration));
}

#[test]
fn create_wallet_rejects_wrong_auth_address() {
    let wallet_key = addr(1);
    let creator = addr(2);
    let owners = vec![addr(3), addr(4)];
    let mut auth_accounts: Vec<[u8; 32]> = owners.iter().map(|o| pda(&wallet_key, o)).collect();
    auth_accounts[1][0] ^= 0xff;
    let r = create_wallet(
        &PROGRAM_ID,
        &wallet_key,
        &creator,
        2,
        3,
        &owners,
        &auth_accounts,
        600,
        0,
    );
    assert_eq!(r.err(), Some(WalletError::InvalidWalletAuth));
}

fn creator_auth() -> multisig_wallet::state::WalletAuth {
    multisig_wallet::state::WalletAuth {
        owner: addr(2),
        wallet: addr(1),
        id: 0,
        added_time: 0,
    }
}

#[test]
fn create_proposal_records_proposer_vote() {
    let auth = creator_auth();
    let (proposal, ledger) = create_proposal(
        &auth,
        ProposalType::AddOwner { user: addr(9) },
        None,
        5_000,
    )
    .unwrap();
    assert_eq!(proposal.wallet, addr(1));
    assert_eq!(proposal.proposer, addr(2));
    assert_eq!(ledger.proposed_time, 5_000);
    assert_eq!(ledger.votes, 1);
    assert!(ledger.vote_record.test_bit(0));
    assert_eq!(ledger.vote_record.count(), 1);
}

#[test]
fn create_proposal_rejects_short_duration() {
    let auth = creator_auth();
    let r = create_proposal(
        &auth,
        ProposalType::ChangeProposalLifetime { duration: 300 },
        None,
        0,
    );
    assert_eq!(r.err(), Some(WalletError::TooShortDuration));
}

#[test]
fn create_proposal_rejects_zero_amount() {
    let auth = creator_auth();
    let account = TokenAccountInfo { address: addr(10), mint: addr(11) };
    let r = create_proposal(
        &auth,
        ProposalType::Transfer { token_mint: addr(11), receive_account: addr(10), amount: 0 },
        Some(account),
        0,
    );
    assert_eq!(r.err(), Some(WalletError::ZeroSendAmount));
}

#[test]
fn create_proposal_rejects_account_mismatch() {
    let auth = creator_auth();
    let account = TokenAccountInfo { address: addr(12), mint: addr(11) };
    let r = create_proposal(
        &auth,
        ProposalType::Transfer { token_mint: addr(11), receive_account: addr(10), amount: 5 },
        Some(account),
        0,
    );
    assert_eq!(r.err(), Some(WalletError::TokenAccountMismatch));
}

#[test]
fn create_proposal_rejects_mint_mismatch() {
    let auth = creator_auth();
    let account = TokenAccountInfo { address: addr(10), mint: addr(13) };
    let r = create_proposal(
        &auth,
        ProposalType::Transfer { token_mint: addr(11), receive_account: addr(10), amount: 5 },
        Some(account),
        0,
    );
    assert_eq!(r.err(), Some(WalletError::MintMismatch));
}

#[test]
fn create_proposal_accepts_valid_transfer() {
    let auth = creator_auth();
    let account = TokenAccountInfo { address: addr(10), mint: addr(11) };
    let (proposal, ledger) = create_proposal(
        &auth,
        ProposalType::Transfer { token_mint: addr(11), receive_account: addr(10), amount: 5 },
        Some(account),
        77,
    )
    .unwrap();
    match proposal.proposal {
        ProposalType::Transfer { token_mint, receive_account, amount } => {
            assert_eq!(token_mint, addr(11));
            assert_eq!(receive_account, addr(10));
            assert_eq!(amount, 5);
        }
        _ => panic!("wrong proposal variant"),
    }
    assert_eq!(ledger.votes, 1);
}

fn auth_with_id(id: u8) -> multisig_wallet::state::WalletAuth {
    multisig_wallet::state::WalletAuth {
        owner: addr(40 + id),
        wallet: addr(1),
        id,
        added_time: 0,
    }
}

#[test]
fn error_names_are_stable() {
    assert_eq!(WalletError::AlreadyVoted.name(), "AlreadyVoted");
    assert_eq!(WalletError::NotEnoughVotes.name(), "NotEnoughVotes");
    assert_eq!(WalletError::InvalidWalletAuth.name(), "InvalidWalletAuth");
}

#[test]
fn vote_twice_fails_with_already_voted() {
    let auth = creator_auth();
    let (_proposal, mut ledger) =
        create_proposal(&auth, ProposalType::AddOwner { user: addr(9) }, None, 0).unwrap();
    let voter = auth_with_id(1);
    assert_eq!(vote(&voter, &mut ledger), Ok(()));
    assert_eq!(ledger.votes, 2);
    assert!(ledger.vote_record.test_bit(1));
    assert_eq!(vote(&voter, &mut ledger), Err(WalletError::AlreadyVoted));
    assert_eq!(ledger.votes, 2);
}

#[test]
fn revoke_without_vote_fails_with_not_voted() {
    let auth = creator_auth();
    let (_proposal, mut ledger) =
        create_proposal(&auth, ProposalType::AddOwner { user: addr(9) }, None, 0).unwrap();
    let bystander = auth_with_id(2);
    assert_eq!(revoke_vote(&bystander, &mut ledger), Err(WalletError::NotVoted));
    assert_eq!(ledger.votes, 1);
}

#[test]
fn vote_then_revoke_round_trips() {
    let auth = creator_auth();
    let (_proposal, mut ledger) =
        create_proposal(&auth, ProposalType::AddOwner { user: addr(9) }, None, 0).unwrap();
    let voter = auth_with_id(3);
    assert_eq!(vote(&voter, &mut ledger), Ok(()));
    assert_eq!(revoke_vote(&voter, &mut ledger), Ok(()));
    assert_eq!(ledger.votes, 1);
    assert!(!ledger.vote_record.test_bit(3));
    assert!(ledger.vote_record.test_bit(0));
    // The counter always equals the number of recorded votes.
    assert_eq!(ledger.votes as usize, ledger.vote_record.count());
}
