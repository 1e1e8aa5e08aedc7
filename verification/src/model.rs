use vstd::prelude::*;

use crate::addr::{owner_record_pda, Addr};
use crate::bits::lowest_clear;
use crate::error::WalletError;
use crate::state::{
    CloseAction, Proposal, ProposalType, SweepPair, TokenAccountInfo, VoteModel, WalletAuth,
    WalletModel, MIN_PROPOSAL_LIFETIME,
};

verus! {

// The functional model of every operation: each executable operation's
// contract says that it returns, and leaves its records in, exactly what the
// model computes. The laws of the state machine are lemmas over these models.

/// The bitmap with no bit set.
pub open spec fn no_bits() -> Seq<bool> {
    Seq::new(256, |i: int| false)
}

/// The bitmap of a fresh wallet with auxiliary owners `1..=k`: ids `0..=k`
/// assigned, all higher ids free.
pub open spec fn initial_identities(k: int) -> Seq<bool> {
    Seq::new(256, |i: int| 0 <= i <= k)
}

/// The vote count a proposal must reach while unexpired:
/// `floor(owners * m / n)`.
pub open spec fn quorum_threshold(w: WalletModel) -> int {
    (w.owners * w.m) / (w.n as int)
}

/// The identity records a fresh wallet persists: the creator under id 0,
/// then each auxiliary owner under ids `1, 2, ...` in list order.
pub open spec fn initial_auths(
    wallet: Addr,
    creator: Addr,
    owners: Seq<Addr>,
    now: i64,
) -> Seq<WalletAuth> {
    Seq::new(
        owners.len() + 1,
        |i: int|
            WalletAuth {
                owner: if i == 0 {
                    creator
                } else {
                    owners[i - 1]
                },
                wallet,
                id: i as u8,
                added_time: now,
            },
    )
}

/// What creating a wallet validates and persists.
pub open spec fn create_wallet_model(
    program_id: Addr,
    wallet: Addr,
    creator: Addr,
    m: u8,
    n: u8,
    owners: Seq<Addr>,
    wallet_auth_accounts: Seq<Addr>,
    proposal_lifetime: i64,
    now: i64,
) -> Result<(WalletModel, Seq<WalletAuth>), WalletError> {
    if m == 0 || n == 0 {
        Err(WalletError::ZeroParameters)
    } else if m > n {
        Err(WalletError::InvalidParameters)
    } else if owners.len() != wallet_auth_accounts.len() {
        Err(WalletError::SizeMismatch)
    } else if proposal_lifetime < MIN_PROPOSAL_LIFETIME {
        Err(WalletError::TooShortDuration)
    } else if exists|i: int|
        0 <= i < owners.len() && owner_record_pda(program_id@, wallet@, owners[i]@) != Some(
            wallet_auth_accounts[i]@,
        ) {
        Err(WalletError::InvalidWalletAuth)
    } else {
        Ok(
            (
                WalletModel {
                    name: Seq::empty(),
                    m,
                    n,
                    owners: (owners.len() + 1) as u8,
                    owner_identities: initial_identities(owners.len() as int),
                    proposal_lifetime,
                },
                initial_auths(wallet, creator, owners, now),
            ),
        )
    }
}

/// What creating a proposal validates, and the paired records it persists:
/// the proposal itself and a vote ledger carrying the proposer's own vote.
pub open spec fn create_proposal_model(
    auth: WalletAuth,
    proposal: ProposalType,
    receive_account: Option<TokenAccountInfo>,
    now: i64,
) -> Result<(Proposal, VoteModel), WalletError> {
    let checked: Option<WalletError> = match proposal {
        ProposalType::Transfer { token_mint, receive_account: declared, amount } => {
            if amount == 0 {
                Some(WalletError::ZeroSendAmount)
            } else {
                match receive_account {
                    Some(acct) => {
                        if acct.address@ != declared@ {
                            Some(WalletError::TokenAccountMismatch)
                        } else if acct.mint@ != token_mint@ {
                            Some(WalletError::MintMismatch)
                        } else {
                            None
                        }
                    },
                    None => arbitrary(),  // a transfer proposal always carries the account
                }
            }
        },
        ProposalType::AddOwner { .. } => None,
        ProposalType::ChangeProposalLifetime { duration } => {
            if duration < MIN_PROPOSAL_LIFETIME {
                Some(WalletError::TooShortDuration)
            } else {
                None
            }
        },
    };
    match checked {
        Some(e) => Err(e),
        None => Ok(
            (
                Proposal { wallet: auth.wallet, proposer: auth.owner, proposal },
                VoteModel {
                    proposed_time: now,
                    votes: 1,
                    vote_record: no_bits().update(auth.id as int, true),
                },
            ),
        ),
    }
}

/// What voting does: reject a second vote of the same identity, else record
/// the vote and count it.
pub open spec fn vote_model(v: VoteModel, id: u8) -> Result<VoteModel, WalletError> {
    if v.vote_record[id as int] {
        Err(WalletError::AlreadyVoted)
    } else {
        Ok(
            VoteModel {
                proposed_time: v.proposed_time,
                votes: (v.votes + 1) as u8,
                vote_record: v.vote_record.update(id as int, true),
            },
        )
    }
}

/// What revoking a vote does: reject when no vote is recorded, else clear
/// the vote and uncount it.
pub open spec fn revoke_vote_model(v: VoteModel, id: u8) -> Result<VoteModel, WalletError> {
    if !v.vote_record[id as int] {
        Err(WalletError::NotVoted)
    } else {
        Ok(
            VoteModel {
                proposed_time: v.proposed_time,
                votes: (v.votes - 1) as u8,
                vote_record: v.vote_record.update(id as int, false),
            },
        )
    }
}

/// The wallet after identity `id` is revoked.
pub open spec fn revoked_wallet(w: WalletModel, id: u8) -> WalletModel {
    WalletModel {
        owners: (w.owners - 1) as u8,
        owner_identities: w.owner_identities.update(id as int, false),
        ..w
    }
}

/// The sweep orders a flat (source, destination, ...) account list asks for.
pub open spec fn sweep_pairs(accounts: Seq<Addr>) -> Seq<SweepPair> {
    Seq::new(
        accounts.len() / 2,
        |i: int| SweepPair { source: accounts[2 * i], destination: accounts[2 * i + 1] },
    )
}

/// What giving up ownership does: the identity is revoked; a sole remaining
/// owner may in addition have the wallet's asset accounts swept out in
/// (source, destination) pairs, and an odd account list is rejected.
pub open spec fn give_up_ownership_model(
    w: WalletModel,
    id: u8,
    accounts: Seq<Addr>,
) -> Result<(WalletModel, Seq<SweepPair>), WalletError> {
    if w.owners == 1 {
        if accounts.len() % 2 != 0 {
            Err(WalletError::InsufficientAccounts)
        } else {
            Ok((revoked_wallet(w, id), sweep_pairs(accounts)))
        }
    } else {
        Ok((revoked_wallet(w, id), Seq::empty()))
    }
}

/// What closing a proposal does: an expired proposal is discarded with no
/// effect whatever the votes; an unexpired one needs quorum, and then applies
/// its effect exactly once.
pub open spec fn close_proposal_model(
    w: WalletModel,
    p: Proposal,
    v: VoteModel,
    now: i64,
) -> Result<(WalletModel, CloseAction), WalletError> {
    if now >= v.proposed_time + w.proposal_lifetime {
        Ok((w, CloseAction::Discard))
    } else if (v.votes as int) < quorum_threshold(w) {
        Err(WalletError::NotEnoughVotes)
    } else {
        match p.proposal {
            ProposalType::Transfer { token_mint, receive_account, amount } => Ok(
                (w, CloseAction::TransferFunds { token_mint, receive_account, amount }),
            ),
            ProposalType::AddOwner { user } => {
                if w.owners >= 255 {
                    Err(WalletError::MaxOwners)
                } else {
                    let id = lowest_clear(w.owner_identities);
                    Ok(
                        (
                            WalletModel {
                                owners: (w.owners + 1) as u8,
                                owner_identities: w.owner_identities.update(id, true),
                                ..w
                            },
                            CloseAction::AddOwner {
                                auth: WalletAuth {
                                    owner: user,
                                    wallet: p.wallet,
                                    id: id as u8,
                                    added_time: now,
                                },
                            },
                        ),
                    )
                }
            },
            ProposalType::ChangeProposalLifetime { duration } => Ok(
                (
                    WalletModel { proposal_lifetime: duration, ..w },
                    CloseAction::ChangeLifetime { duration },
                ),
            ),
        }
    }
}

} // verus!
