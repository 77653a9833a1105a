//! Identities of members.
use vstd::prelude::*;

verus! {

/// The 32-byte hash that names an account, held as its two 16-byte halves read as
/// big-endian numbers. Two accounts are the same exactly when both halves agree.
#[derive(Clone, Copy, Debug, PartialEq, Eq, Hash, Structural)]
pub struct AccountHash {
    pub hi: u128,
    pub lo: u128,
}

/// The number that bytes stand for, most significant byte first.
pub open spec fn big_endian(bytes: Seq<u8>) -> nat
    decreases bytes.len(),
{
    if bytes.len() == 0 {
        0
    } else {
        big_endian(bytes.drop_last()) * 256 + bytes.last() as nat
    }
}

/// 256 to the power `n`.
pub open spec fn pow256(n: nat) -> nat
    decreases n,
{
    if n == 0 {
        1
    } else {
        256 * pow256((n - 1) as nat)
    }
}

/// `n` bytes stand for a number below 256 to the power `n`.
pub proof fn lemma_big_endian_bound(bytes: Seq<u8>)
    ensures
        big_endian(bytes) < pow256(bytes.len()),
    decreases bytes.len(),
{
    if bytes.len() > 0 {
        lemma_big_endian_bound(bytes.drop_last());
    }
}

/// Bytes of one length that stand for one number are the same bytes.
pub proof fn lemma_big_endian_injective(a: Seq<u8>, b: Seq<u8>)
    requires
        a.len() == b.len(),
        big_endian(a) == big_endian(b),
    ensures
        a == b,
    decreases a.len(),
{
    if a.len() > 0 {
        lemma_big_endian_injective(a.drop_last(), b.drop_last());
        assert(a =~= a.drop_last().push(a.last()));
        assert(b =~= b.drop_last().push(b.last()));
    } else {
        assert(a =~= b);
    }
}

/// Sixteen bytes stand for a number that fits in 128 bits.
proof fn lemma_sixteen_bytes_fit(bytes: Seq<u8>)
    requires
        bytes.len() <= 16,
    ensures
        big_endian(bytes) * 256 + 255 <= pow256(16) - 1 || bytes.len() == 16,
        big_endian(bytes) <= u128::MAX,
{
    lemma_big_endian_bound(bytes);
    assert(pow256(16) == 0x1_0000_0000_0000_0000_0000_0000_0000_0000) by {
        reveal_with_fuel(pow256, 17);
    }
    if bytes.len() < 16 {
        lemma_pow256_monotone(bytes.len(), 15);
    }
    lemma_pow256_monotone(bytes.len(), 16);
}

/// The powers of 256 are positive and grow.
proof fn lemma_pow256_monotone(m: nat, n: nat)
    requires
        m <= n,
    ensures
        1 <= pow256(m) <= pow256(n),
    decreases n,
{
    if n > m {
        lemma_pow256_monotone(m, (n - 1) as nat);
    } else if m > 0 {
        lemma_pow256_monotone((m - 1) as nat, (n - 1) as nat);
    }
}

impl AccountHash {
    /// The two halves as a tuple: the key of the account in an ordered map.
    pub open spec fn spec_key(self) -> (u128, u128) {
        (self.hi, self.lo)
    }

    /// The account that a key names.
    pub open spec fn spec_from_key(k: (u128, u128)) -> AccountHash {
        AccountHash { hi: k.0, lo: k.1 }
    }

    /// The account that 32 bytes name: the first sixteen bytes, read as a big-endian
    /// number, are the upper half, the last sixteen the lower half.
    pub open spec fn spec_from_bytes(bytes: Seq<u8>) -> AccountHash
        recommends
            bytes.len() == 32,
    {
        AccountHash {
            hi: big_endian(bytes.subrange(0, 16)) as u128,
            lo: big_endian(bytes.subrange(16, 32)) as u128,
        }
    }

    /// Different bytes name different accounts.
    pub proof fn lemma_from_bytes_injective(a: Seq<u8>, b: Seq<u8>)
        requires
            a.len() == 32,
            b.len() == 32,
            AccountHash::spec_from_bytes(a) == AccountHash::spec_from_bytes(b),
        ensures
            a == b,
    {
        lemma_sixteen_bytes_fit(a.subrange(0, 16));
        lemma_sixteen_bytes_fit(b.subrange(0, 16));
        lemma_sixteen_bytes_fit(a.subrange(16, 32));
        lemma_sixteen_bytes_fit(b.subrange(16, 32));
        lemma_big_endian_injective(a.subrange(0, 16), b.subrange(0, 16));
        lemma_big_endian_injective(a.subrange(16, 32), b.subrange(16, 32));
        assert forall|i: int| 0 <= i < 32 implies a[i] == b[i] by {
            if i < 16 {
                assert(a.subrange(0, 16)[i] == b.subrange(0, 16)[i]);
            } else {
                assert(a.subrange(16, 32)[i - 16] == b.subrange(16, 32)[i - 16]);
            }
        }
        assert(a =~= b);
    }

    /// Sixteen bytes of a hash, from `start` on, as a big-endian number.
    fn half_from_bytes(bytes: &[u8; 32], start: usize) -> (r: u128)
        requires
            start == 0 || start == 16,
        ensures
            r == big_endian(bytes@.subrange(start as int, start + 16)),
    {
        let mut value: u128 = 0;
        let mut i: usize = 0;
        while i < 16
            invariant
                i <= 16,
                start == 0 || start == 16,
                value == big_endian(bytes@.subrange(start as int, start + i)),
            decreases 16 - i,
        {
            proof {
                let before = bytes@.subrange(start as int, start + i);
                let after = bytes@.subrange(start as int, start + i + 1);
                assert(after.drop_last() =~= before);
                lemma_sixteen_bytes_fit(before);
                lemma_sixteen_bytes_fit(after);
            }
            value = value * 256 + bytes[start + i] as u128;
            i += 1;
        }
        value
    }

    /// The account that 32 bytes name.
    pub fn from_bytes(bytes: &[u8; 32]) -> (r: AccountHash)
        ensures
            r == AccountHash::spec_from_bytes(bytes@),
    {
        AccountHash {
            hi: AccountHash::half_from_bytes(bytes, 0),
            lo: AccountHash::half_from_bytes(bytes, 16),
        }
    }

    /// The account with the given halves.
    pub fn new(hi: u128, lo: u128) -> (r: AccountHash)
        ensures
            r.hi == hi,
            r.lo == lo,
    {
        AccountHash { hi, lo }
    }

    /// The key of the account in an ordered map.
    pub fn key(&self) -> (r: (u128, u128))
        ensures
            r == self.spec_key(),
    {
        (self.hi, self.lo)
    }

    /// The account that a key names.
    pub fn from_key(k: (u128, u128)) -> (r: AccountHash)
        ensures
            r == AccountHash::spec_from_key(k),
            r.spec_key() == k,
    {
        AccountHash { hi: k.0, lo: k.1 }
    }

    /// Whether the two hashes name the same account.
    pub fn same(&self, other: &AccountHash) -> (r: bool)
        ensures
            r == (*self == *other),
    {
        self.hi == other.hi && self.lo == other.lo
    }
}

} // verus!
