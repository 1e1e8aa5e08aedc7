pub mod addr;
pub mod bits;
pub mod codec;
pub mod error;
pub mod laws;
pub mod model;
pub mod state;

use vstd::prelude::*;

use crate::addr::{addr_eq, derive_owner_record_address, owner_record_pda, Addr};
use crate::bits::{
    lemma_popcount_all_false, lemma_popcount_all_true, lemma_popcount_bounds,
    lemma_popcount_clear_bit, lemma_popcount_true_prefix, lemma_popcount_update, popcount, Bitmap,
};
use crate::error::WalletError;
use crate::model::{
    close_proposal_model, create_proposal_model, create_wallet_model, give_up_ownership_model,
    initial_auths, initial_identities, no_bits, revoke_vote_model, sweep_pairs, vote_model,
};
use crate::state::{
    CloseAction, Proposal, ProposalType, SweepPair, TokenAccountInfo, VoteCount, VoteModel,
    WalletAuth, WalletConfig, WalletModel, MIN_PROPOSAL_LIFETIME,
};

verus! {

/// Validates the quorum parameters and owner list, checks each supplied
/// identity-record address against the derived one, and builds the wallet's
/// configuration and identity records: the creator under id 0, then each
/// owner of `owners` under ids `1, 2, ...` in list order, with the bitmap's
/// leading bits set accordingly.
pub fn create_wallet(
    program_id: &Addr,
    wallet: &Addr,
    creator: &Addr,
    m: u8,
    n: u8,
    owners: &Vec<Addr>,
    wallet_auth_accounts: &Vec<Addr>,
    proposal_lifetime: i64,
    now: i64,
) -> (r: Result<(WalletConfig, Vec<WalletAuth>), WalletError>)
    requires
        owners@.len() <= 254,
    ensures
        (match r {
            Ok((config, auths)) => create_wallet_model(
                *program_id,
                *wallet,
                *creator,
                m,
                n,
                owners@,
                wallet_auth_accounts@,
                proposal_lifetime,
                now,
            ) == Ok::<(WalletModel, Seq<WalletAuth>), WalletError>((config@, auths@))
                && config.wf() && auths@.len() == owners@.len() + 1 && (forall|i: int|
                0 <= i < auths@.len() ==> auths@[i].wf()),
            Err(e) => create_wallet_model(
                *program_id,
                *wallet,
                *creator,
                m,
                n,
                owners@,
                wallet_auth_accounts@,
                proposal_lifetime,
                now,
            ) == Err::<(WalletModel, Seq<WalletAuth>), WalletError>(e),
        }),
{
    if m == 0 || n == 0 {
        return Err(WalletError::ZeroParameters);
    }
    if m > n {
        return Err(WalletError::InvalidParameters);
    }
    if owners.len() != wallet_auth_accounts.len() {
        return Err(WalletError::SizeMismatch);
    }
    if proposal_lifetime < MIN_PROPOSAL_LIFETIME {
        return Err(WalletError::TooShortDuration);
    }
    let mut i: usize = 0;
    while i < owners.len()
        invariant
            i <= owners@.len(),
            owners@.len() == wallet_auth_accounts@.len(),
            m > 0,
            n > 0,
            m <= n,
            proposal_lifetime >= MIN_PROPOSAL_LIFETIME,
            forall|j: int|
                0 <= j < i ==> owner_record_pda(program_id@, wallet@, owners@[j]@) == Some(
                    wallet_auth_accounts@[j]@,
                ),
        decreases owners@.len() - i,
    {
        let owner_i = owners[i];
        let acct_i = wallet_auth_accounts[i];
        let derived = derive_owner_record_address(program_id, wallet, &owner_i);
        if derived.is_none() {
            proof {
                assert(owner_record_pda(program_id@, wallet@, owners@[i as int]@) != Some(
                    wallet_auth_accounts@[i as int]@,
                ));
            }
            return Err(WalletError::InvalidWalletAuth);
        }
        let a = derived.unwrap();
        if !addr_eq(&a, &acct_i) {
            proof {
                assert(owner_record_pda(program_id@, wallet@, owners@[i as int]@) != Some(
                    wallet_auth_accounts@[i as int]@,
                ));
            }
            return Err(WalletError::InvalidWalletAuth);
        }
        i += 1;
    }
    let mut auths: Vec<WalletAuth> = Vec::new();
    auths.push(WalletAuth { owner: *creator, wallet: *wallet, id: 0, added_time: now });
    let mut k: usize = 0;
    while k < owners.len()
        invariant
            k <= owners@.len() <= 254,
            auths@.len() == k + 1,
            forall|j: int|
                0 <= j <= k ==> auths@[j] == (WalletAuth {
                    owner: if j == 0 {
                        *creator
                    } else {
                        owners@[j - 1]
                    },
                    wallet: *wallet,
                    id: j as u8,
                    added_time: now,
                }),
        decreases owners@.len() - k,
    {
        auths.push(
            WalletAuth { owner: owners[k], wallet: *wallet, id: (k + 1) as u8, added_time: now },
        );
        k += 1;
    }
    let total = owners.len() + 1;
    let mut identities = Bitmap::new();
    proof {
        lemma_popcount_all_false(identities@);
    }
    let mut b: usize = 0;
    while b < total
        invariant
            b <= total <= 255,
            identities@.len() == 256,
            popcount(identities@) == b,
            forall|j: int| 0 <= j < 256 ==> (identities@[j] <==> j < b),
        decreases total - b,
    {
        proof {
            lemma_popcount_update(identities@, b as int, true);
        }
        identities.set_bit(b as u8);
        b += 1;
    }
    let config = WalletConfig {
        name: String::new(),
        m,
        n,
        owners: total as u8,
        owner_identities: identities,
        proposal_lifetime,
    };
    proof {
        assert(config@.owner_identities =~= initial_identities(owners@.len() as int));
        assert(auths@ =~= initial_auths(*wallet, *creator, owners@, now));
    }
    Ok((config, auths))
}

/// Validates a requested action and creates the proposal with its vote
/// ledger: the proposer's bit pre-set and one vote counted. A transfer must
/// move a positive amount to the account it declares, holding the mint it
/// declares; a lifetime change must keep the lifetime long enough.
pub fn create_proposal(
    auth: &WalletAuth,
    proposal: ProposalType,
    receive_account: Option<TokenAccountInfo>,
    now: i64,
) -> (r: Result<(Proposal, VoteCount), WalletError>)
    requires
        auth.wf(),
        (proposal matches ProposalType::Transfer { .. } ==> receive_account is Some),
    ensures
        (match r {
            Ok(created) => create_proposal_model(*auth, proposal, receive_account, now) == Ok::<
                (Proposal, VoteModel),
                WalletError,
            >((created.0, created.1@)) && created.0.wf() && created.1.wf(),
            Err(e) => create_proposal_model(*auth, proposal, receive_account, now) == Err::<
                (Proposal, VoteModel),
                WalletError,
            >(e),
        }),
{
    match proposal {
        ProposalType::Transfer { token_mint, receive_account: declared, amount } => {
            if amount == 0 {
                return Err(WalletError::ZeroSendAmount);
            }
            let acct = receive_account.unwrap();
            if !addr_eq(&acct.address, &declared) {
                return Err(WalletError::TokenAccountMismatch);
            }
            if !addr_eq(&acct.mint, &token_mint) {
                return Err(WalletError::MintMismatch);
            }
        },
        ProposalType::AddOwner { .. } => {},
        ProposalType::ChangeProposalLifetime { duration } => {
            if duration < MIN_PROPOSAL_LIFETIME {
                return Err(WalletError::TooShortDuration);
            }
        },
    }
    let mut vote_record = Bitmap::new();
    proof {
        assert(vote_record@ =~= no_bits());
        lemma_popcount_all_false(vote_record@);
        lemma_popcount_update(vote_record@, auth.id as int, true);
    }
    vote_record.set_bit(auth.id);
    let created = Proposal { wallet: auth.wallet, proposer: auth.owner, proposal };
    let ledger = VoteCount { proposed_time: now, votes: 1, vote_record };
    Ok((created, ledger))
}

/// Revokes the calling identity. A sole remaining owner may supply a flat
/// list of (source, destination) account pairs; the returned sweep orders
/// ask the caller to move each source's full balance to its destination
/// before the wallet goes ownerless. An odd list is rejected with
/// `InsufficientAccounts` and nothing changes.
pub fn give_up_ownership(
    wallet: &mut WalletConfig,
    auth: &WalletAuth,
    accounts: &Vec<Addr>,
) -> (r: Result<Vec<SweepPair>, WalletError>)
    requires
        old(wallet).wf(),
        auth.wf(),
        old(wallet)@.owner_identities[auth.id as int],
    ensures
        final(wallet).wf(),
        (match r {
            Ok(pairs) => give_up_ownership_model(old(wallet)@, auth.id, accounts@) == Ok::<
                (WalletModel, Seq<SweepPair>),
                WalletError,
            >((final(wallet)@, pairs@)),
            Err(e) => give_up_ownership_model(old(wallet)@, auth.id, accounts@) == Err::<
                (WalletModel, Seq<SweepPair>),
                WalletError,
            >(e) && final(wallet)@ == old(wallet)@,
        }),
{
    let sole = wallet.owners == 1;
    if sole && accounts.len() % 2 != 0 {
        return Err(WalletError::InsufficientAccounts);
    }
    proof {
        lemma_popcount_update(wallet@.owner_identities, auth.id as int, false);
        lemma_popcount_bounds(wallet@.owner_identities.update(auth.id as int, false));
    }
    wallet.owner_identities.clear_bit(auth.id);
    wallet.owners = wallet.owners - 1;
    if !sole {
        return Ok(Vec::new());
    }
    let mut pairs: Vec<SweepPair> = Vec::new();
    let mut i: usize = 0;
    while i + 1 < accounts.len()
        invariant
            i % 2 == 0,
            i <= accounts@.len(),
            accounts@.len() % 2 == 0,
            pairs@.len() == i / 2,
            forall|k: int|
                0 <= k < pairs@.len() ==> pairs@[k] == (SweepPair {
                    source: accounts@[2 * k],
                    destination: accounts@[2 * k + 1],
                }),
        decreases accounts@.len() - i,
    {
        pairs.push(SweepPair { source: accounts[i], destination: accounts[i + 1] });
        i += 2;
    }
    proof {
        assert(pairs@ =~= sweep_pairs(accounts@));
    }
    Ok(pairs)
}

/// Resolves a proposal. Past `proposed_time + proposal_lifetime` it is
/// discarded with no effect, whatever the votes. Before that, the vote count
/// must reach `floor(owners * m / n)` (`NotEnoughVotes` otherwise, records
/// untouched); on quorum the effect is applied exactly once: a transfer
/// order is returned for the caller to carry out, an added owner gets the
/// lowest free identity id, a lifetime change is written to the wallet.
pub fn close_proposal(
    wallet: &mut WalletConfig,
    proposal: &Proposal,
    vote_count: &VoteCount,
    now: i64,
) -> (r: Result<CloseAction, WalletError>)
    requires
        old(wallet).wf(),
        proposal.wf(),
        vote_count.wf(),
        vote_count.proposed_time + old(wallet).proposal_lifetime <= i64::MAX,
    ensures
        final(wallet).wf(),
        (match r {
            Ok(action) => close_proposal_model(old(wallet)@, *proposal, vote_count@, now) == Ok::<
                (WalletModel, CloseAction),
                WalletError,
            >((final(wallet)@, action)),
            Err(e) => close_proposal_model(old(wallet)@, *proposal, vote_count@, now) == Err::<
                (WalletModel, CloseAction),
                WalletError,
            >(e) && final(wallet)@ == old(wallet)@,
        }),
{
    let deadline = vote_count.proposed_time + wallet.proposal_lifetime;
    if now >= deadline {
        return Ok(CloseAction::Discard);
    }
    proof {
        vstd::arithmetic::mul::lemma_mul_upper_bound(
            wallet.owners as int,
            255,
            wallet.m as int,
            255,
        );
    }
    let threshold = (wallet.owners as u32) * (wallet.m as u32) / (wallet.n as u32);
    if (vote_count.votes as u32) < threshold {
        return Err(WalletError::NotEnoughVotes);
    }
    match proposal.proposal {
        ProposalType::Transfer { token_mint, receive_account, amount } => Ok(
            CloseAction::TransferFunds { token_mint, receive_account, amount },
        ),
        ProposalType::AddOwner { user } => {
            if wallet.owners == 255 {
                return Err(WalletError::MaxOwners);
            }
            let id_opt = wallet.owner_identities.first_unset();
            proof {
                if id_opt is None {
                    lemma_popcount_all_true(wallet@.owner_identities);
                    assert(false);
                }
            }
            let id = id_opt.unwrap();
            proof {
                if id == 255 {
                    lemma_popcount_true_prefix(wallet@.owner_identities, 255);
                    assert(false);
                }
                lemma_popcount_update(wallet@.owner_identities, id as int, true);
            }
            wallet.owner_identities.set_bit(id);
            wallet.owners = wallet.owners + 1;
            Ok(
                CloseAction::AddOwner {
                    auth: WalletAuth { owner: user, wallet: proposal.wallet, id, added_time: now },
                },
            )
        },
        ProposalType::ChangeProposalLifetime { duration } => {
            wallet.proposal_lifetime = duration;
            Ok(CloseAction::ChangeLifetime { duration })
        },
    }
}

/// Records `auth`'s vote on the proposal whose ledger is `vote_count`:
/// fails with `AlreadyVoted` when the identity's bit is already set, else
/// sets the bit and counts the vote. On failure the ledger is untouched.
pub fn vote(auth: &WalletAuth, vote_count: &mut VoteCount) -> (r: Result<(), WalletError>)
    requires
        auth.wf(),
        old(vote_count).wf(),
    ensures
        final(vote_count).wf(),
        (match r {
            Ok(()) => vote_model(old(vote_count)@, auth.id) == Ok::<VoteModel, WalletError>(
                final(vote_count)@,
            ),
            Err(e) => vote_model(old(vote_count)@, auth.id) == Err::<VoteModel, WalletError>(e)
                && final(vote_count)@ == old(vote_count)@,
        }),
{
    if vote_count.vote_record.test_bit(auth.id) {
        return Err(WalletError::AlreadyVoted);
    }
    proof {
        let s = vote_count@.vote_record;
        lemma_popcount_update(s, auth.id as int, true);
        lemma_popcount_clear_bit(s.update(auth.id as int, true), 255);
    }
    vote_count.vote_record.set_bit(auth.id);
    vote_count.votes = vote_count.votes + 1;
    Ok(())
}

/// Withdraws `auth`'s vote from the ledger: fails with `NotVoted` when the
/// identity's bit is clear, else clears the bit and uncounts the vote. On
/// failure the ledger is untouched.
pub fn revoke_vote(auth: &WalletAuth, vote_count: &mut VoteCount) -> (r: Result<
    (),
    WalletError,
>)
    requires
        auth.wf(),
        old(vote_count).wf(),
    ensures
        final(vote_count).wf(),
        (match r {
            Ok(()) => revoke_vote_model(old(vote_count)@, auth.id) == Ok::<
                VoteModel,
                WalletError,
            >(final(vote_count)@),
            Err(e) => revoke_vote_model(old(vote_count)@, auth.id) == Err::<
                VoteModel,
                WalletError,
            >(e) && final(vote_count)@ == old(vote_count)@,
        }),
{
    if !vote_count.vote_record.test_bit(auth.id) {
        return Err(WalletError::NotVoted);
    }
    proof {
        let s = vote_count@.vote_record;
        lemma_popcount_update(s, auth.id as int, false);
        lemma_popcount_bounds(s.update(auth.id as int, false));
    }
    vote_count.vote_record.clear_bit(auth.id);
    vote_count.votes = vote_count.votes - 1;
    Ok(())
}

} // verus!
