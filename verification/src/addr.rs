use vstd::prelude::*;

verus! {

/// A 32-byte account address, the stable identifier of every record and
/// principal the runtime knows.
pub type Addr = [u8; 32];

/// Compares two addresses byte for byte.
pub fn addr_eq(a: &Addr, b: &Addr) -> (r: bool)
    ensures
        r <==> a@ == b@,
{
    let mut i: usize = 0;
    while i < 32
        invariant
            i <= 32,
            forall|j: int| 0 <= j < i ==> a@[j] == b@[j],
        decreases 32 - i,
    {
        if a[i] != b[i] {
            return false;
        }
        i += 1;
    }
    proof {
        assert(a@ =~= b@);
    }
    true
}

/// The address the runtime derives for the identity record of `owner` under
/// `wallet`, within the program `program_id` — or `None` in the statistically
/// improbable event that no valid derivation exists.
pub uninterp spec fn owner_record_pda(program_id: Seq<u8>, wallet: Seq<u8>, owner: Seq<u8>) -> Option<
    Seq<u8>,
>;

/// Relies on Pubkey::try_find_program_address (anchor_lang's re-export of the
/// runtime's address derivation): the result is a hash of the seed bytes —
/// here the tag "owner", the wallet address and the owner address — and the
/// program id alone, so it is a function of the arguments.
#[verifier::external_body]
pub fn derive_owner_record_address(program_id: &Addr, wallet: &Addr, owner: &Addr) -> (r: Option<
    Addr,
>)
    ensures
        match r {
            Some(a) => owner_record_pda(program_id@, wallet@, owner@) == Some(a@),
            None => owner_record_pda(program_id@, wallet@, owner@) is None,
        },
{
    let program = anchor_lang::solana_program::pubkey::Pubkey::new_from_array(*program_id);
    match anchor_lang::solana_program::pubkey::Pubkey::try_find_program_address(
        &["owner".as_bytes(), wallet.as_ref(), owner.as_ref()],
        &program,
    ) {
        Some((key, _bump)) => Some(key.to_bytes()),
        None => None,
    }
}

} // verus!
