use vstd::prelude::*;

use crate::addr::Addr;
use crate::bits::{popcount, Bitmap};

verus! {

/// The shortest lifetime (in seconds) a proposal may stay votable.
pub const MIN_PROPOSAL_LIFETIME: i64 = 600;

/// The longest display name (in bytes) a wallet may carry.
pub const MAX_NAME_LEN: usize = 20;

/// The largest identity id a wallet may hand out; ids index a 256-bit set
/// whose topmost bit stays free, so a wallet holds at most 255 owners.
pub const MAX_ID: u8 = 254;

/// The persisted size of a record: an 8-byte discriminator tag followed by
/// the record's fields as fixed-width little-endian values.
pub trait Len {
    fn len() -> usize;
}

/// The pending action a proposal asks for.
#[derive(Clone, Copy, Debug)]
pub enum ProposalType {
    /// Move `amount` of the asset `token_mint` from the wallet's custody to
    /// the token account `receive_account`.
    Transfer { token_mint: Addr, receive_account: Addr, amount: u64 },
    /// Assign the next free identity id to `user`.
    AddOwner { user: Addr },
    /// Overwrite the wallet's proposal lifetime with `duration` seconds.
    ChangeProposalLifetime { duration: i64 },
}

/// The persisted byte layout of an identity record, tag included.
#[derive(Clone, Copy, Debug)]
pub struct RawWalletAuth {
    pub discriminator: [u8; 8],
    pub owner: Addr,
    pub wallet: Addr,
    pub id: u8,
    pub added_time: i64,
}

/// A wallet's configuration: quorum parameters, the owner count, the packed
/// membership bitmap, and the proposal expiry window.
pub struct WalletConfig {
    /// Display name, at most `MAX_NAME_LEN` bytes.
    pub name: String,
    /// Quorum numerator.
    pub m: u8,
    /// Quorum denominator.
    pub n: u8,
    /// Count of currently active identities.
    pub owners: u8,
    /// Bit `i` set exactly when identity id `i` is assigned.
    pub owner_identities: Bitmap,
    /// Seconds a proposal of this wallet stays votable.
    pub proposal_lifetime: i64,
}

/// The mathematical content of a `WalletConfig`.
#[verifier::ext_equal]
pub struct WalletModel {
    pub name: Seq<char>,
    pub m: u8,
    pub n: u8,
    pub owners: u8,
    pub owner_identities: Seq<bool>,
    pub proposal_lifetime: i64,
}

impl View for WalletConfig {
    type V = WalletModel;

    open spec fn view(&self) -> WalletModel {
        WalletModel {
            name: self.name@,
            m: self.m,
            n: self.n,
            owners: self.owners,
            owner_identities: self.owner_identities@,
            proposal_lifetime: self.proposal_lifetime,
        }
    }
}

impl WalletModel {
    /// The invariant of every wallet: quorum parameters in range, lifetime
    /// long enough, and the owner count equal to the number of assigned ids,
    /// with the topmost bit never handed out.
    pub open spec fn wf(self) -> bool {
        &&& self.m > 0
        &&& self.n > 0
        &&& self.m <= self.n
        &&& self.proposal_lifetime >= MIN_PROPOSAL_LIFETIME
        &&& self.owner_identities.len() == 256
        &&& self.owners as int == popcount(self.owner_identities)
        &&& !self.owner_identities[255]
        &&& self.name.len() <= MAX_NAME_LEN
    }
}

impl WalletConfig {
    pub open spec fn wf(&self) -> bool {
        self@.wf()
    }
}

/// One owner's identity record: the principal, the owning wallet, the
/// identity id used as a bit index, and when it was assigned.
#[derive(Clone, Copy, Debug)]
pub struct WalletAuth {
    pub owner: Addr,
    pub wallet: Addr,
    pub id: u8,
    pub added_time: i64,
}

impl WalletAuth {
    /// Identity ids stay within the id space.
    pub open spec fn wf(&self) -> bool {
        self.id <= MAX_ID
    }
}

/// A pending proposal: the requested action with its wallet and proposer.
#[derive(Clone, Copy, Debug)]
pub struct Proposal {
    pub wallet: Addr,
    pub proposer: Addr,
    pub proposal: ProposalType,
}

impl Proposal {
    /// What creation validated: a transfer moves a positive amount, and a
    /// lifetime change keeps the lifetime long enough.
    pub open spec fn wf(&self) -> bool {
        match self.proposal {
            ProposalType::Transfer { amount, .. } => amount > 0,
            ProposalType::AddOwner { .. } => true,
            ProposalType::ChangeProposalLifetime { duration } => duration
                >= MIN_PROPOSAL_LIFETIME,
        }
    }
}

/// A proposal's vote ledger: when it was proposed, how many identities have
/// voted, and which (bit `i` set exactly when identity `i` has voted).
pub struct VoteCount {
    pub proposed_time: i64,
    pub votes: u8,
    pub vote_record: Bitmap,
}

/// The mathematical content of a `VoteCount`.
#[verifier::ext_equal]
pub struct VoteModel {
    pub proposed_time: i64,
    pub votes: u8,
    pub vote_record: Seq<bool>,
}

impl View for VoteCount {
    type V = VoteModel;

    open spec fn view(&self) -> VoteModel {
        VoteModel {
            proposed_time: self.proposed_time,
            votes: self.votes,
            vote_record: self.vote_record@,
        }
    }
}

impl VoteModel {
    /// The invariant of every vote ledger: the counter equals the number of
    /// recorded votes, and no vote sits outside the id space.
    pub open spec fn wf(self) -> bool {
        &&& self.vote_record.len() == 256
        &&& self.votes as int == popcount(self.vote_record)
        &&& !self.vote_record[255]
    }
}

impl VoteCount {
    pub open spec fn wf(&self) -> bool {
        self@.wf()
    }
}

/// What the proposal logic reads of an external token account: its address
/// and the mint it holds.
#[derive(Clone, Copy, Debug)]
pub struct TokenAccountInfo {
    pub address: Addr,
    pub mint: Addr,
}

/// One sweep order: move the full balance of `source` to `destination`.
#[derive(Clone, Copy, Debug)]
pub struct SweepPair {
    pub source: Addr,
    pub destination: Addr,
}

/// What closing a proposal resolved to. The caller must carry a
/// `TransferFunds` order out against the token service and persist an
/// `AddOwner` identity record; the other outcomes are complete as returned.
#[derive(Clone, Copy, Debug)]
pub enum CloseAction {
    /// The proposal expired: discard it with no effect.
    Discard,
    /// Quorum met: move `amount` of `token_mint` to `receive_account`.
    TransferFunds { token_mint: Addr, receive_account: Addr, amount: u64 },
    /// Quorum met: the new owner's identity record, already entered in the
    /// wallet's bitmap.
    AddOwner { auth: WalletAuth },
    /// Quorum met: the wallet's lifetime was overwritten with `duration`.
    ChangeLifetime { duration: i64 },
}

impl Len for WalletConfig {
    /// Tag, length-prefixed name, `m`, `n`, `owners`, bitmap, lifetime.
    fn len() -> (r: usize)
        ensures
            r == 75,
    {
        8 + (4 + MAX_NAME_LEN) + 1 + 1 + 1 + 32 + 8
    }
}

impl Len for WalletAuth {
    /// Tag, owner, wallet, id, assignment time.
    fn len() -> (r: usize)
        ensures
            r == 81,
    {
        8 + 32 + 32 + 1 + 8
    }
}

impl Len for Proposal {
    /// Tag, wallet, proposer, and the widest variant: a one-byte variant tag
    /// with a transfer's mint, destination and amount.
    fn len() -> (r: usize)
        ensures
            r == 145,
    {
        8 + 32 + 32 + (1 + 32 + 32 + 8)
    }
}

impl Len for VoteCount {
    /// Tag, proposal time, vote counter, vote bitmap.
    fn len() -> (r: usize)
        ensures
            r == 49,
    {
        8 + 8 + 1 + 32
    }
}

} // verus!
