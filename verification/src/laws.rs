use vstd::prelude::*;

use crate::addr::Addr;
use crate::bits::{lemma_lowest_clear_props, lowest_clear};
use crate::error::WalletError;
use crate::model::{
    close_proposal_model, give_up_ownership_model, quorum_threshold, revoke_vote_model,
    vote_model,
};
use crate::state::{CloseAction, Proposal, VoteModel, WalletAuth, WalletModel};

verus! {

// The laws of the proposal state machine, stated over the operation models
// that every executable operation's contract is pinned to.

/// Voting twice with the same identity, without an intervening revoke,
/// fails with `AlreadyVoted`.
pub proof fn lemma_vote_twice_rejected(v: VoteModel, id: u8, v1: VoteModel)
    requires
        v.wf(),
        vote_model(v, id) == Ok::<VoteModel, WalletError>(v1),
    ensures
        vote_model(v1, id) == Err::<VoteModel, WalletError>(WalletError::AlreadyVoted),
{
}

/// Revoking a vote that was never cast fails with `NotVoted`.
pub proof fn lemma_revoke_unvoted_rejected(v: VoteModel, id: u8)
    requires
        v.wf(),
        !v.vote_record[id as int],
    ensures
        revoke_vote_model(v, id) == Err::<VoteModel, WalletError>(WalletError::NotVoted),
{
}

/// Closing an unexpired proposal whose vote count sits below
/// `floor(owners * m / n)` fails with `NotEnoughVotes`; the records are left
/// intact (the closing operation changes nothing on failure).
pub proof fn lemma_unexpired_below_quorum_rejected(
    w: WalletModel,
    p: Proposal,
    v: VoteModel,
    now: i64,
)
    requires
        now < v.proposed_time + w.proposal_lifetime,
        (v.votes as int) < quorum_threshold(w),
    ensures
        close_proposal_model(w, p, v, now) == Err::<(WalletModel, CloseAction), WalletError>(
            WalletError::NotEnoughVotes,
        ),
{
}

/// Closing a proposal at or past `proposed_time + proposal_lifetime` always
/// succeeds: the proposal is discarded with no effect, whatever the votes.
pub proof fn lemma_expired_always_discards(w: WalletModel, p: Proposal, v: VoteModel, now: i64)
    requires
        now >= v.proposed_time + w.proposal_lifetime,
    ensures
        close_proposal_model(w, p, v, now) == Ok::<(WalletModel, CloseAction), WalletError>(
            (w, CloseAction::Discard),
        ),
{
}

/// Assigning an owner (closing an add-owner proposal) and then revoking the
/// identity it handed out frees exactly its bit: the membership bitmap and
/// the owner count return to what they were, and every other bit is left
/// untouched throughout.
pub proof fn lemma_assign_then_revoke_restores(
    w: WalletModel,
    p: Proposal,
    v: VoteModel,
    now: i64,
    w1: WalletModel,
    auth: WalletAuth,
    accounts: Seq<Addr>,
)
    requires
        w.wf(),
        close_proposal_model(w, p, v, now) == Ok::<(WalletModel, CloseAction), WalletError>(
            (w1, CloseAction::AddOwner { auth }),
        ),
        accounts.len() % 2 == 0,
    ensures
        give_up_ownership_model(w1, auth.id, accounts) matches Ok(restored)
            && restored.0.owner_identities == w.owner_identities && restored.0.owners == w.owners,
{
    let s = w.owner_identities;
    let id = lowest_clear(s);
    lemma_lowest_clear_props(s);
    assert(auth.id as int == id);
    assert(w1.owner_identities == s.update(id, true));
    let r = give_up_ownership_model(w1, auth.id, accounts);
    assert(r is Ok);
    let restored = r->Ok_0;
    assert(restored.0.owner_identities =~= s);
}

} // verus!
