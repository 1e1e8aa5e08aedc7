use vstd::prelude::*;

verus! {

// A fixed 256-bit membership set, packed byte-major into 32 bytes: bit `i`
// lives in byte `i / 8`, counted from the most significant position of the
// byte down, so that the packed bytes read left to right as the bit string.
// Identity ids and vote marks both index into such a set.

/// Whether position `pos` (0 at the most significant end) of byte `b` is set.
pub open spec fn bit_of_byte(b: u8, pos: u8) -> bool
    recommends
        pos < 8,
{
    (b >> ((7 - pos) as u8)) & 1 == 1
}

/// Number of `true` entries of a boolean sequence.
pub open spec fn popcount(s: Seq<bool>) -> int
    decreases s.len(),
{
    if s.len() == 0 {
        0
    } else {
        popcount(s.drop_last()) + (if s.last() {
            1int
        } else {
            0int
        })
    }
}

/// The index of the lowest `false` entry at or after `i`, or `s.len()` if all
/// entries from `i` on are `true`.
pub open spec fn lowest_clear_from(s: Seq<bool>, i: int) -> int
    decreases s.len() - i,
{
    if i < 0 || i >= s.len() {
        s.len() as int
    } else if !s[i] {
        i
    } else {
        lowest_clear_from(s, i + 1)
    }
}

/// The index of the lowest `false` entry, or `s.len()` if every entry is `true`.
pub open spec fn lowest_clear(s: Seq<bool>) -> int {
    lowest_clear_from(s, 0)
}

pub proof fn lemma_popcount_bounds(s: Seq<bool>)
    ensures
        0 <= popcount(s) <= s.len(),
    decreases s.len(),
{
    if s.len() > 0 {
        lemma_popcount_bounds(s.drop_last());
    }
}

pub proof fn lemma_popcount_append(a: Seq<bool>, b: Seq<bool>)
    ensures
        popcount(a + b) == popcount(a) + popcount(b),
    decreases b.len(),
{
    if b.len() == 0 {
        assert(a + b =~= a);
    } else {
        lemma_popcount_append(a, b.drop_last());
        assert((a + b).drop_last() =~= a + b.drop_last());
        assert((a + b).last() == b.last());
    }
}

pub proof fn lemma_popcount_update(s: Seq<bool>, i: int, v: bool)
    requires
        0 <= i < s.len(),
    ensures
        popcount(s.update(i, v)) == popcount(s) - (if s[i] {
            1int
        } else {
            0int
        }) + (if v {
            1int
        } else {
            0int
        }),
{
    let prefix = s.subrange(0, i);
    let suffix = s.subrange(i + 1, s.len() as int);
    assert(s =~= prefix + seq![s[i]] + suffix);
    assert(s.update(i, v) =~= prefix + seq![v] + suffix);
    lemma_popcount_append(prefix + seq![s[i]], suffix);
    lemma_popcount_append(prefix, seq![s[i]]);
    lemma_popcount_append(prefix + seq![v], suffix);
    lemma_popcount_append(prefix, seq![v]);
    assert(popcount(seq![s[i]]) == if s[i] {
        1int
    } else {
        0int
    }) by {
        assert(seq![s[i]].drop_last() =~= Seq::<bool>::empty());
        assert(popcount(Seq::<bool>::empty()) == 0);
    }
    assert(popcount(seq![v]) == if v {
        1int
    } else {
        0int
    }) by {
        assert(seq![v].drop_last() =~= Seq::<bool>::empty());
        assert(popcount(Seq::<bool>::empty()) == 0);
    }
}

pub proof fn lemma_popcount_all_true(s: Seq<bool>)
    requires
        forall|j: int| 0 <= j < s.len() ==> s[j],
    ensures
        popcount(s) == s.len(),
    decreases s.len(),
{
    if s.len() > 0 {
        lemma_popcount_all_true(s.drop_last());
    }
}

pub proof fn lemma_popcount_all_false(s: Seq<bool>)
    requires
        forall|j: int| 0 <= j < s.len() ==> !s[j],
    ensures
        popcount(s) == 0,
    decreases s.len(),
{
    if s.len() > 0 {
        lemma_popcount_all_false(s.drop_last());
    }
}

/// A sequence whose first `k` entries are all `true` holds at least `k` of them.
pub proof fn lemma_popcount_true_prefix(s: Seq<bool>, k: int)
    requires
        0 <= k <= s.len(),
        forall|j: int| 0 <= j < k ==> s[j],
    ensures
        popcount(s) >= k,
{
    let prefix = s.subrange(0, k);
    let suffix = s.subrange(k, s.len() as int);
    assert(s =~= prefix + suffix);
    lemma_popcount_append(prefix, suffix);
    lemma_popcount_all_true(prefix);
    lemma_popcount_bounds(suffix);
}

/// A sequence with a `false` entry at `i` holds fewer than `s.len()` set bits.
pub proof fn lemma_popcount_clear_bit(s: Seq<bool>, i: int)
    requires
        0 <= i < s.len(),
        !s[i],
    ensures
        popcount(s) <= s.len() - 1,
{
    lemma_popcount_update(s, i, true);
    lemma_popcount_bounds(s.update(i, true));
}

pub proof fn lemma_popcount_take_step(s: Seq<bool>, i: int)
    requires
        0 <= i < s.len(),
    ensures
        popcount(s.take(i + 1)) == popcount(s.take(i)) + (if s[i] {
            1int
        } else {
            0int
        }),
{
    assert(s.take(i + 1).drop_last() =~= s.take(i));
    assert(s.take(i + 1).last() == s[i]);
}

/// The characterization of `lowest_clear`: a clear position below which all
/// positions are set is the lowest clear position.
pub proof fn lemma_lowest_clear_char(s: Seq<bool>, k: int)
    requires
        0 <= k < s.len(),
        !s[k],
        forall|j: int| 0 <= j < k ==> s[j],
    ensures
        lowest_clear(s) == k,
{
    lemma_lowest_clear_from_char(s, 0, k);
}

/// A sequence with a clear bit somewhere has a lowest clear bit: it is in
/// range, clear, and everything below it is set.
pub proof fn lemma_lowest_clear_props(s: Seq<bool>)
    requires
        popcount(s) < s.len(),
    ensures
        0 <= lowest_clear(s) < s.len(),
        !s[lowest_clear(s)],
        forall|j: int| 0 <= j < lowest_clear(s) ==> s[j],
{
    lemma_lowest_clear_from_props(s, 0);
    if lowest_clear(s) == s.len() {
        lemma_popcount_all_true(s);
    }
}

proof fn lemma_lowest_clear_from_props(s: Seq<bool>, i: int)
    requires
        0 <= i <= s.len(),
    ensures
        i <= lowest_clear_from(s, i) <= s.len(),
        lowest_clear_from(s, i) < s.len() ==> !s[lowest_clear_from(s, i)],
        forall|j: int| i <= j < lowest_clear_from(s, i) ==> s[j],
        lowest_clear_from(s, i) == s.len() ==> (forall|j: int| i <= j < s.len() ==> s[j]),
    decreases s.len() - i,
{
    if i < s.len() && s[i] {
        lemma_lowest_clear_from_props(s, i + 1);
    }
}

proof fn lemma_lowest_clear_from_char(s: Seq<bool>, i: int, k: int)
    requires
        0 <= i <= k < s.len(),
        !s[k],
        forall|j: int| i <= j < k ==> s[j],
    ensures
        lowest_clear_from(s, i) == k,
    decreases k - i,
{
    if i < k {
        lemma_lowest_clear_from_char(s, i + 1, k);
    }
}

proof fn lemma_set_bit_of_byte(b: u8, p: u8, q: u8)
    by (bit_vector)
    requires
        p < 8,
        q < 8,
    ensures
        bit_of_byte(b | (1u8 << ((7 - p) as u8)), q) == (p == q || bit_of_byte(b, q)),
{
}

proof fn lemma_clear_bit_of_byte(b: u8, p: u8, q: u8)
    by (bit_vector)
    requires
        p < 8,
        q < 8,
    ensures
        bit_of_byte(b & !(1u8 << ((7 - p) as u8)), q) == (p != q && bit_of_byte(b, q)),
{
}

proof fn lemma_zero_byte_clear(q: u8)
    by (bit_vector)
    requires
        q < 8,
    ensures
        !bit_of_byte(0, q),
{
}

/// A packed 256-bit set over identity ids, stored as 32 bytes.
pub struct Bitmap {
    bytes: [u8; 32],
}

impl View for Bitmap {
    type V = Seq<bool>;

    closed spec fn view(&self) -> Seq<bool> {
        Seq::new(256, |i: int| bit_of_byte(self.bytes@[i / 8], (i % 8) as u8))
    }
}

impl Clone for Bitmap {
    fn clone(&self) -> (r: Self)
        ensures
            r@ == self@,
    {
        Bitmap { bytes: self.bytes }
    }
}

impl Bitmap {
    /// The empty set.
    pub fn new() -> (r: Bitmap)
        ensures
            r@.len() == 256,
            forall|i: int| 0 <= i < 256 ==> !r@[i],
    {
        let r = Bitmap { bytes: [0u8; 32] };
        proof {
            assert forall|i: int| 0 <= i < 256 implies !r@[i] by {
                assert(r.bytes@[i / 8] == 0);
                lemma_zero_byte_clear((i % 8) as u8);
            }
        }
        r
    }

    /// Rebuilds a set from its packed bytes.
    pub fn from_bytes(bytes: [u8; 32]) -> (r: Bitmap)
        ensures
            r@.len() == 256,
            forall|i: int|
                0 <= i < 256 ==> r@[i] == bit_of_byte(bytes@[i / 8], (i % 8) as u8),
    {
        Bitmap { bytes }
    }

    /// The packed bytes, as persisted.
    pub fn to_bytes(&self) -> (r: [u8; 32])
        ensures
            forall|i: int|
                0 <= i < 256 ==> self@[i] == bit_of_byte(r@[i / 8], (i % 8) as u8),
    {
        self.bytes
    }

    /// Whether bit `id` is set.
    pub fn test_bit(&self, id: u8) -> (r: bool)
        ensures
            r == self@[id as int],
    {
        let byte: u8 = self.bytes[(id / 8) as usize];
        let r = (byte >> (7 - id % 8)) & 1 == 1;
        proof {
            assert(self@[id as int] == bit_of_byte(self.bytes@[id as int / 8], (
            id as int % 8) as u8));
            assert(id as int / 8 == (id / 8) as int);
            assert((id as int % 8) as u8 == id % 8);
        }
        r
    }

    /// Sets bit `id`, leaving every other bit as it was.
    pub fn set_bit(&mut self, id: u8)
        ensures
            final(self)@ == old(self)@.update(id as int, true),
    {
        let byte_idx = (id / 8) as usize;
        let pos = id % 8;
        self.bytes[byte_idx] = self.bytes[byte_idx] | (1u8 << (7 - pos));
        proof {
            self.lemma_one_byte_update(*old(self), id, true);
        }
    }

    /// Clears bit `id`, leaving every other bit as it was.
    pub fn clear_bit(&mut self, id: u8)
        ensures
            final(self)@ == old(self)@.update(id as int, false),
    {
        let byte_idx = (id / 8) as usize;
        let pos = id % 8;
        self.bytes[byte_idx] = self.bytes[byte_idx] & !(1u8 << (7 - pos));
        proof {
            self.lemma_one_byte_update(*old(self), id, false);
        }
    }

    proof fn lemma_one_byte_update(&self, prev: Bitmap, id: u8, v: bool)
        requires
            self.bytes@ == prev.bytes@.update(id as int / 8, if v {
                prev.bytes@[id as int / 8] | (1u8 << ((7 - id % 8) as u8))
            } else {
                prev.bytes@[id as int / 8] & !(1u8 << ((7 - id % 8) as u8))
            }),
        ensures
            self@ == prev@.update(id as int, v),
    {
        let old_byte = prev.bytes@[id as int / 8];
        let p = id % 8;
        assert forall|j: int| 0 <= j < 256 implies self@[j] == prev@.update(id as int, v)[j] by {
            let q = (j % 8) as u8;
            vstd::arithmetic::div_mod::lemma_fundamental_div_mod(j, 8);
            vstd::arithmetic::div_mod::lemma_fundamental_div_mod(id as int, 8);
            if j / 8 == id as int / 8 {
                if v {
                    lemma_set_bit_of_byte(old_byte, p, q);
                } else {
                    lemma_clear_bit_of_byte(old_byte, p, q);
                }
            }
        }
        assert(self@ =~= prev@.update(id as int, v));
    }

    /// The number of set bits.
    pub fn count(&self) -> (r: usize)
        ensures
            r == popcount(self@),
    {
        let mut c: usize = 0;
        let mut i: usize = 0;
        proof {
            assert(self@.take(0) =~= Seq::<bool>::empty());
        }
        while i < 256
            invariant
                i <= 256,
                c <= i,
                c == popcount(self@.take(i as int)),
            decreases 256 - i,
        {
            proof {
                lemma_popcount_take_step(self@, i as int);
            }
            if self.test_bit(i as u8) {
                c += 1;
            }
            i += 1;
        }
        proof {
            assert(self@.take(256) =~= self@);
        }
        c
    }

    /// The lowest clear bit: the next free identity id, byte-major, first
    /// fit, lowest index first.
    pub fn first_unset(&self) -> (r: Option<u8>)
        ensures
            match r {
                Some(id) => !self@[id as int] && id as int == lowest_clear(self@) && (forall|
                    j: int,
                |
                    0 <= j < id as int ==> self@[j]),
                None => forall|j: int| 0 <= j < 256 ==> self@[j],
            },
    {
        let mut i: usize = 0;
        while i < 256
            invariant
                i <= 256,
                forall|j: int| 0 <= j < i ==> self@[j],
            decreases 256 - i,
        {
            if !self.test_bit(i as u8) {
                proof {
                    lemma_lowest_clear_char(self@, i as int);
                }
                return Some(i as u8);
            }
            i += 1;
        }
        None
    }
}

} // verus!
