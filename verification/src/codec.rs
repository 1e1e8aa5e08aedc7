use vstd::prelude::*;

use crate::state::{RawWalletAuth, WalletAuth};

verus! {

// The persisted byte layout of an identity record: the 8-byte discriminator
// tag, then the fields in order as fixed-width little-endian values — 32-byte
// addresses, the one-byte id, and the 8-byte assignment time.

/// Byte `k` of the little-endian encoding of `x`.
pub open spec fn le_byte(x: u64, k: int) -> u8 {
    (x >> ((8 * k) as u64)) as u8
}

/// The eight little-endian bytes of a signed 64-bit value, least significant
/// first, in two's complement.
pub open spec fn le_bytes_of(x: i64) -> Seq<u8> {
    Seq::new(8, |k: int| le_byte(x as u64, k))
}

fn push_array<const N: usize>(out: &mut Vec<u8>, b: &[u8; N])
    ensures
        final(out)@ == old(out)@ + b@,
{
    let mut i: usize = 0;
    while i < N
        invariant
            i <= N,
            out@ == old(out)@ + b@.take(i as int),
        decreases N - i,
    {
        proof {
            assert(old(out)@ + b@.take(i as int + 1) =~= (old(out)@ + b@.take(i as int)).push(
                b@[i as int],
            ));
        }
        out.push(b[i]);
        i += 1;
    }
    proof {
        assert(b@.take(N as int) =~= b@);
    }
}

fn push_le_i64(out: &mut Vec<u8>, x: i64)
    ensures
        final(out)@ == old(out)@ + le_bytes_of(x),
{
    let u = x as u64;
    let mut k: usize = 0;
    while k < 8
        invariant
            k <= 8,
            u == x as u64,
            out@ == old(out)@ + le_bytes_of(x).take(k as int),
        decreases 8 - k,
    {
        proof {
            assert(old(out)@ + le_bytes_of(x).take(k as int + 1) =~= (old(out)@ + le_bytes_of(
                x,
            ).take(k as int)).push(le_byte(x as u64, k as int)));
        }
        out.push((u >> ((8 * k) as u64)) as u8);
        k += 1;
    }
    proof {
        assert(le_bytes_of(x).take(8) =~= le_bytes_of(x));
    }
}

impl RawWalletAuth {
    /// The record's persisted bytes: tag, owner, wallet, id, assignment time.
    pub fn encode(&self) -> (r: Vec<u8>)
        ensures
            r@ == self.discriminator@ + self.owner@ + self.wallet@ + seq![self.id]
                + le_bytes_of(self.added_time),
            r@.len() == 81,
    {
        let mut out: Vec<u8> = Vec::new();
        push_array(&mut out, &self.discriminator);
        push_array(&mut out, &self.owner);
        push_array(&mut out, &self.wallet);
        proof {
            assert((out@ + seq![self.id]) =~= out@.push(self.id));
        }
        out.push(self.id);
        push_le_i64(&mut out, self.added_time);
        proof {
            assert(out@ =~= Seq::<u8>::empty() + self.discriminator@ + self.owner@ + self.wallet@
                + seq![self.id] + le_bytes_of(self.added_time));
            assert(Seq::<u8>::empty() + self.discriminator@ + self.owner@ + self.wallet@
                + seq![self.id] + le_bytes_of(self.added_time) =~= self.discriminator@
                + self.owner@ + self.wallet@ + seq![self.id] + le_bytes_of(self.added_time));
        }
        out
    }
}

impl WalletAuth {
    /// The record under its persisted tag, ready to encode.
    pub fn to_raw(&self, discriminator: [u8; 8]) -> (r: RawWalletAuth)
        ensures
            r.discriminator == discriminator,
            r.owner == self.owner,
            r.wallet == self.wallet,
            r.id == self.id,
            r.added_time == self.added_time,
    {
        RawWalletAuth {
            discriminator,
            owner: self.owner,
            wallet: self.wallet,
            id: self.id,
            added_time: self.added_time,
        }
    }
}

} // verus!
