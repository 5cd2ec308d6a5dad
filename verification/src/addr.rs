//! Raw 32-byte account addresses, with equality and the lexicographic
//! order that decides which token mint is passed first to the AMM.

use vstd::prelude::*;

verus! {

/// Number of bytes in a raw account address.
pub const ADDR_LEN: usize = 32;

/// A raw account address: exactly 32 bytes.
#[derive(Debug)]
pub struct Addr {
    bytes: Vec<u8>,
}

impl View for Addr {
    type V = Seq<u8>;

    closed spec fn view(&self) -> Seq<u8> {
        self.bytes@
    }
}

/// Lexicographic order on byte strings: the order of raw addresses.
pub open spec fn bytes_lt(a: Seq<u8>, b: Seq<u8>) -> bool
    decreases a.len(),
{
    if b.len() == 0 {
        false
    } else if a.len() == 0 {
        true
    } else if a[0] != b[0] {
        a[0] < b[0]
    } else {
        bytes_lt(a.drop_first(), b.drop_first())
    }
}

/// The order on byte strings is asymmetric: at most one of two distinct
/// addresses orders before the other.
pub proof fn lemma_bytes_lt_asymmetric(a: Seq<u8>, b: Seq<u8>)
    ensures
        bytes_lt(a, b) ==> !bytes_lt(b, a),
    decreases a.len(),
{
    if a.len() > 0 && b.len() > 0 && a[0] == b[0] {
        lemma_bytes_lt_asymmetric(a.drop_first(), b.drop_first());
    }
}

impl Addr {
    /// An address is well formed when it holds exactly 32 bytes.
    pub open spec fn wf(&self) -> bool {
        self@.len() == ADDR_LEN
    }

    /// Builds an address from raw bytes; rejects any length but 32.
    pub fn new(bytes: Vec<u8>) -> (r: Option<Addr>)
        ensures
            bytes@.len() == ADDR_LEN ==> (r matches Some(a) && a@ == bytes@ && a.wf()),
            bytes@.len() != ADDR_LEN ==> r is None,
    {
        if bytes.len() == ADDR_LEN {
            Some(Addr { bytes })
        } else {
            None
        }
    }

    /// The raw bytes of the address.
    pub fn as_bytes(&self) -> (r: &Vec<u8>)
        ensures
            r@ == self@,
    {
        &self.bytes
    }

    /// An owned copy of the raw bytes.
    pub fn to_vec(&self) -> (r: Vec<u8>)
        ensures
            r@ == self@,
    {
        let mut out: Vec<u8> = Vec::new();
        let mut i: usize = 0;
        while i < self.bytes.len()
            invariant
                i <= self.bytes@.len(),
                out@ == self.bytes@.subrange(0, i as int),
            decreases self.bytes@.len() - i,
        {
            out.push(self.bytes[i]);
            i = i + 1;
        }
        assert(out@ =~= self.bytes@);
        out
    }

    /// A copy of the address itself.
    pub fn dup(&self) -> (r: Addr)
        ensures
            r@ == self@,
            self.wf() ==> r.wf(),
    {
        Addr { bytes: self.to_vec() }
    }

    /// Whether `self` orders strictly before `other` as a raw address.
    pub fn lt(&self, other: &Addr) -> (r: bool)
        ensures
            r == bytes_lt(self@, other@),
    {
        let n = if self.bytes.len() < other.bytes.len() {
            self.bytes.len()
        } else {
            other.bytes.len()
        };
        let mut i: usize = 0;
        proof {
            assert(self@.skip(0) =~= self@);
            assert(other@.skip(0) =~= other@);
        }
        while i < n
            invariant
                i <= n,
                n <= self.bytes@.len(),
                n <= other.bytes@.len(),
                n == if self.bytes@.len() < other.bytes@.len() {
                    self.bytes@.len()
                } else {
                    other.bytes@.len()
                },
                bytes_lt(self@, other@) == bytes_lt(
                    self@.skip(i as int),
                    other@.skip(i as int),
                ),
                forall|j: int| 0 <= j < i ==> self@[j] == other@[j],
            decreases n - i,
        {
            let a = self.bytes[i];
            let b = other.bytes[i];
            if a != b {
                proof {
                    assert(self@.skip(i as int)[0] == self@[i as int]);
                    assert(other@.skip(i as int)[0] == other@[i as int]);
                }
                return a < b;
            }
            proof {
                assert(self@.skip(i as int).drop_first() =~= self@.skip(i + 1));
                assert(other@.skip(i as int).drop_first() =~= other@.skip(i + 1));
            }
            i = i + 1;
        }
        proof {
            assert(self@.skip(i as int).len() == self@.len() - i);
            assert(other@.skip(i as int).len() == other@.len() - i);
        }
        self.bytes.len() < other.bytes.len()
    }
}

impl PartialEq for Addr {
    /// Byte-for-byte equality of addresses.
    fn eq(&self, other: &Addr) -> (r: bool) {
        if self.bytes.len() != other.bytes.len() {
            return false;
        }
        let mut i: usize = 0;
        while i < self.bytes.len()
            invariant
                i <= self.bytes@.len(),
                self.bytes@.len() == other.bytes@.len(),
                forall|j: int| 0 <= j < i ==> self@[j] == other@[j],
            decreases self.bytes@.len() - i,
        {
            if self.bytes[i] != other.bytes[i] {
                return false;
            }
            i = i + 1;
        }
        proof {
            assert(self@ =~= other@);
        }
        true
    }
}

impl Eq for Addr {}

impl vstd::std_specs::cmp::PartialEqSpecImpl for Addr {
    open spec fn obeys_eq_spec() -> bool {
        true
    }

    open spec fn eq_spec(&self, other: &Addr) -> bool {
        self@ == other@
    }
}

} // verus!
