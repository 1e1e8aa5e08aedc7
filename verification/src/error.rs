use vstd::prelude::*;

verus! {

/// The validation failures an operation can surface. All are synchronous,
/// non-retryable rejections: the whole operation aborts with no state change.
#[derive(Clone, Copy, Debug, PartialEq, Eq, Structural)]
pub enum WalletError {
    /// A quorum parameter (`m` or `n`) is zero.
    ZeroParameters,
    /// The quorum numerator `m` exceeds the denominator `n`.
    InvalidParameters,
    /// A supplied identity-record address does not match the derived one.
    InvalidWalletAuth,
    /// An odd number of asset accounts was supplied where pairs are required.
    InsufficientAccounts,
    /// A transfer proposal names a zero amount.
    ZeroSendAmount,
    /// The destination account's mint differs from the proposal's mint.
    MintMismatch,
    /// The supplied destination account differs from the proposal's address.
    TokenAccountMismatch,
    /// A proposal lifetime shorter than ten minutes.
    TooShortDuration,
    /// The identity's vote is already recorded.
    AlreadyVoted,
    /// No vote of the identity is recorded, so none can be revoked.
    NotVoted,
    /// The vote count has not reached the quorum threshold.
    NotEnoughVotes,
    /// The wallet already holds the largest possible number of owners.
    MaxOwners,
    /// The owner list and the identity-record list differ in length.
    SizeMismatch,
}

impl WalletError {
    /// A short stable name for the error, for callers that report it.
    pub fn name(&self) -> (r: &'static str) {
        match self {
            WalletError::ZeroParameters => "ZeroParameters",
            WalletError::InvalidParameters => "InvalidParameters",
            WalletError::InvalidWalletAuth => "InvalidWalletAuth",
            WalletError::InsufficientAccounts => "InsufficientAccounts",
            WalletError::ZeroSendAmount => "ZeroSendAmount",
            WalletError::MintMismatch => "MintMismatch",
            WalletError::TokenAccountMismatch => "TokenAccountMismatch",
            WalletError::TooShortDuration => "TooShortDuration",
            WalletError::AlreadyVoted => "AlreadyVoted",
            WalletError::NotVoted => "NotVoted",
            WalletError::NotEnoughVotes => "NotEnoughVotes",
            WalletError::MaxOwners => "MaxOwners",
            WalletError::SizeMismatch => "SizeMismatch",
        }
    }
}

} // verus!
