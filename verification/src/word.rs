//! Fixed-width byte words: 32-byte words (amounts, nonces, message ids,
//! transaction hashes) and 20-byte account identifiers, with a big-endian
//! numeric interpretation and verified comparisons.

use vstd::prelude::*;

verus! {

/// Big-endian interpretation of a byte sequence as a natural number.
pub open spec fn be_nat(s: Seq<u8>) -> nat
    decreases s.len(),
{
    if s.len() == 0 {
        0
    } else {
        be_nat(s.drop_last()) * 256 + s.last() as nat
    }
}

/// A byte sequence reads as zero exactly when every byte is zero.
pub proof fn lemma_be_nat_zero(s: Seq<u8>)
    ensures
        (be_nat(s) == 0) <==> (forall|j: int| 0 <= j < s.len() ==> s[j] == 0),
    decreases s.len(),
{
    if s.len() > 0 {
        lemma_be_nat_zero(s.drop_last());
        if be_nat(s) == 0 {
            assert(forall|j: int| 0 <= j < s.len() - 1 ==> s[j] == s.drop_last()[j]);
        }
        if forall|j: int| 0 <= j < s.len() ==> s[j] == 0 {
            assert(forall|j: int| 0 <= j < s.drop_last().len() ==> s.drop_last()[j] == 0);
        }
    }
}

/// Among equal-length byte sequences, the big-endian order is the
/// lexicographic order: a strictly smaller byte at the first differing
/// position makes the whole word strictly smaller.
pub proof fn lemma_be_nat_lex(s: Seq<u8>, t: Seq<u8>, i: int)
    requires
        s.len() == t.len(),
        0 <= i < s.len(),
        forall|j: int| 0 <= j < i ==> s[j] == t[j],
        s[i] < t[i],
    ensures
        be_nat(s) < be_nat(t),
    decreases s.len(),
{
    if i == s.len() - 1 {
        assert(s.drop_last() =~= t.drop_last());
    } else {
        assert(forall|j: int| 0 <= j < i ==> s.drop_last()[j] == t.drop_last()[j]);
        assert(s.drop_last()[i] == s[i] && t.drop_last()[i] == t[i]);
        lemma_be_nat_lex(s.drop_last(), t.drop_last(), i);
        assert(be_nat(s) < be_nat(t)) by (nonlinear_arith)
            requires
                be_nat(s) == be_nat(s.drop_last()) * 256 + s.last(),
                be_nat(t) == be_nat(t.drop_last()) * 256 + t.last(),
                be_nat(s.drop_last()) < be_nat(t.drop_last()),
                s.last() < 256,
                t.last() >= 0,
        {}
    }
}

/// A 32-byte word, read as a 256-bit unsigned integer in big-endian order.
#[derive(Debug)]
pub struct Word256 {
    pub bytes: Vec<u8>,
}

impl View for Word256 {
    type V = Seq<u8>;

    open spec fn view(&self) -> Seq<u8> {
        self.bytes@
    }
}

impl Word256 {
    pub open spec fn wf(self) -> bool {
        self.bytes@.len() == 32
    }

    pub open spec fn as_nat(self) -> nat {
        be_nat(self.bytes@)
    }

    /// Byte-for-byte copy of this word.
    pub fn duplicate(&self) -> (r: Word256)
        ensures
            r@ == self@,
    {
        Word256 { bytes: clone_bytes(&self.bytes) }
    }

    /// Byte-for-byte equality, which coincides with numeric equality.
    pub fn eq_word(&self, other: &Word256) -> (r: bool)
        ensures
            r == (self@ =~= other@),
    {
        bytes_eq(&self.bytes, &other.bytes)
    }

    /// Strict numeric comparison of two 32-byte big-endian words.
    pub fn lt_word(&self, other: &Word256) -> (r: bool)
        requires
            self.wf(),
            other.wf(),
        ensures
            r == (self.as_nat() < other.as_nat()),
    {
        let mut i: usize = 0;
        while i < 32
            invariant
                self.wf(),
                other.wf(),
                0 <= i <= 32,
                forall|j: int| 0 <= j < i ==> self.bytes@[j] == other.bytes@[j],
            decreases 32 - i,
        {
            let a = self.bytes[i];
            let b = other.bytes[i];
            if a < b {
                proof {
                    lemma_be_nat_lex(self.bytes@, other.bytes@, i as int);
                }
                return true;
            }
            if a > b {
                proof {
                    lemma_be_nat_lex(other.bytes@, self.bytes@, i as int);
                }
                return false;
            }
            i += 1;
        }
        proof {
            assert(self.bytes@ =~= other.bytes@);
        }
        false
    }

    /// Whether this word reads as the number zero.
    pub fn is_zero(&self) -> (r: bool)
        requires
            self.wf(),
        ensures
            r == (self.as_nat() == 0),
    {
        let mut i: usize = 0;
        while i < 32
            invariant
                self.wf(),
                0 <= i <= 32,
                forall|j: int| 0 <= j < i ==> self.bytes@[j] == 0,
            decreases 32 - i,
        {
            if self.bytes[i] != 0 {
                proof {
                    lemma_be_nat_zero(self.bytes@);
                }
                return false;
            }
            i += 1;
        }
        proof {
            lemma_be_nat_zero(self.bytes@);
        }
        true
    }
}

/// A 20-byte account identifier on either chain.
#[derive(Debug)]
pub struct AccountId {
    pub bytes: Vec<u8>,
}

impl View for AccountId {
    type V = Seq<u8>;

    open spec fn view(&self) -> Seq<u8> {
        self.bytes@
    }
}

impl AccountId {
    pub open spec fn wf(self) -> bool {
        self.bytes@.len() == 20
    }

    /// Byte-for-byte copy of this account identifier.
    pub fn duplicate(&self) -> (r: AccountId)
        ensures
            r@ == self@,
    {
        AccountId { bytes: clone_bytes(&self.bytes) }
    }

    /// Byte-for-byte equality of account identifiers.
    pub fn eq_account(&self, other: &AccountId) -> (r: bool)
        ensures
            r == (self@ =~= other@),
    {
        bytes_eq(&self.bytes, &other.bytes)
    }
}

/// Byte-for-byte equality of two byte vectors.
pub fn bytes_eq(a: &Vec<u8>, b: &Vec<u8>) -> (r: bool)
    ensures
        r == (a@ =~= b@),
{
    if a.len() != b.len() {
        return false;
    }
    let n = a.len();
    let mut i: usize = 0;
    while i < n
        invariant
            a@.len() == n,
            b@.len() == n,
            0 <= i <= n,
            forall|j: int| 0 <= j < i ==> a@[j] == b@[j],
        decreases n - i,
    {
        if a[i] != b[i] {
            return false;
        }
        i += 1;
    }
    true
}

/// Fresh copy of a byte vector.
pub fn clone_bytes(v: &Vec<u8>) -> (r: Vec<u8>)
    ensures
        r@ == v@,
{
    let mut out: Vec<u8> = Vec::new();
    let n = v.len();
    let mut i: usize = 0;
    while i < n
        invariant
            v@.len() == n,
            0 <= i <= n,
            out@ =~= v@.subrange(0, i as int),
        decreases n - i,
    {
        out.push(v[i]);
        i += 1;
    }
    proof {
        assert(out@ =~= v@);
    }
    out
}

/// Copy of the byte range `[start, start + len)` of `src`.
pub fn copy_range(src: &Vec<u8>, start: usize, len: usize) -> (r: Vec<u8>)
    requires
        start + len <= src@.len(),
    ensures
        r@ == src@.subrange(start as int, start as int + len as int),
{
    let mut out: Vec<u8> = Vec::new();
    let m = src.len();
    let mut i: usize = 0;
    while i < len
        invariant
            start + len <= m,
            m == src@.len(),
            0 <= i <= len,
            out@ =~= src@.subrange(start as int, start as int + i as int),
        decreases len - i,
    {
        out.push(src[start + i]);
        i += 1;
    }
    proof {
        assert(out@ =~= src@.subrange(start as int, start as int + len as int));
    }
    out
}

/// Appends every byte of `src` to `dst`.
pub fn append_bytes(dst: &mut Vec<u8>, src: &Vec<u8>)
    ensures
        final(dst)@ == old(dst)@ + src@,
{
    let n = src.len();
    let mut i: usize = 0;
    while i < n
        invariant
            src@.len() == n,
            0 <= i <= n,
            dst@ =~= old(dst)@ + src@.subrange(0, i as int),
        decreases n - i,
    {
        dst.push(src[i]);
        i += 1;
    }
    proof {
        assert(dst@ =~= old(dst)@ + src@);
    }
}

} // verus!
