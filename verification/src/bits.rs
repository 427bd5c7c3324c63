//! Packing of captured bits into frame bytes, most significant bit first.

use vstd::prelude::*;

verus! {

/// Number of bits in a frame.
pub const FRAME_BITS: u8 = 40;

/// The number that a run of bits spells, its first bit the most significant.
pub open spec fn value_of(bits: Seq<bool>) -> nat
    decreases bits.len(),
{
    if bits.len() == 0 {
        0
    } else {
        2 * value_of(bits.drop_last()) + if bits.last() {
            1nat
        } else {
            0nat
        }
    }
}

/// The bits that go into byte `k`: bits `8k` up to `8k + 8`, fewer or none
/// where `bits` ends before that.
pub open spec fn octet(bits: Seq<bool>, k: int) -> Seq<bool> {
    let from = if 8 * k < bits.len() {
        8 * k
    } else {
        bits.len() as int
    };
    let to = if 8 * k + 8 < bits.len() {
        8 * k + 8
    } else {
        bits.len() as int
    };
    bits.subrange(from, to)
}

/// The five bytes that hold up to forty bits in capture order, eight to a
/// byte, the first bit of each group in the highest place. A byte that has
/// received fewer than eight bits holds them in its low places.
pub open spec fn packed(bits: Seq<bool>) -> Seq<u8> {
    Seq::new(5, |k: int| value_of(octet(bits, k)) as u8)
}

/// Two to the power of `count`.
spec fn limit(count: nat) -> nat
    decreases count,
{
    if count == 0 {
        1
    } else {
        2 * limit((count - 1) as nat)
    }
}

proof fn lemma_value_fits(bits: Seq<bool>)
    ensures
        value_of(bits) < limit(bits.len()),
    decreases bits.len(),
{
    if bits.len() > 0 {
        lemma_value_fits(bits.drop_last());
    }
}

/// Packing loses nothing: a group of at most eight bits spells a number that
/// fits a byte, so each packed byte is the number that its group spells.
pub proof fn lemma_packed_bytes(bits: Seq<bool>, k: int)
    requires
        0 <= k < 5,
    ensures
        packed(bits).len() == 5,
        value_of(octet(bits, k)) < 256,
        packed(bits)[k] == value_of(octet(bits, k)),
{
    reveal_with_fuel(limit, 9);
    lemma_value_fits(octet(bits, k));
}

proof fn lemma_limit_bound(count: nat)
    requires
        count < 8,
    ensures
        limit(count) <= 128,
{
    reveal_with_fuel(limit, 9);
}

/// The `count` low bits of `value`, most significant first.
spec fn expand(value: nat, count: nat) -> Seq<bool>
    decreases count,
{
    if count == 0 {
        Seq::empty()
    } else {
        expand(value / 2, (count - 1) as nat).push(value % 2 == 1)
    }
}

/// How many of the places of byte `k` are taken once `len` bits are stored.
spec fn taken(len: int, k: int) -> nat {
    if len <= 8 * k {
        0
    } else if len >= 8 * k + 8 {
        8
    } else {
        (len - 8 * k) as nat
    }
}

proof fn lemma_expand_len(value: nat, count: nat)
    ensures
        expand(value, count).len() == count,
    decreases count,
{
    if count > 0 {
        lemma_expand_len(value / 2, (count - 1) as nat);
    }
}

proof fn lemma_expand_value(value: nat, count: nat)
    requires
        value < limit(count),
    ensures
        value_of(expand(value, count)) == value,
    decreases count,
{
    if count > 0 {
        let rest = expand(value / 2, (count - 1) as nat);
        lemma_expand_value(value / 2, (count - 1) as nat);
        assert(expand(value, count).drop_last() =~= rest);
    }
}

/// Up to forty bits, stored in five bytes as they arrive.
#[derive(Clone, Copy, Debug, PartialEq, Eq)]
pub struct BitBuffer {
    bytes: [u8; 5],
    len: u8,
}

impl View for BitBuffer {
    type V = Seq<bool>;

    closed spec fn view(&self) -> Seq<bool> {
        expand(self.bytes[0] as nat, taken(self.len as int, 0)) + expand(
            self.bytes[1] as nat,
            taken(self.len as int, 1),
        ) + expand(self.bytes[2] as nat, taken(self.len as int, 2)) + expand(
            self.bytes[3] as nat,
            taken(self.len as int, 3),
        ) + expand(self.bytes[4] as nat, taken(self.len as int, 4))
    }
}

impl BitBuffer {
    #[verifier::type_invariant]
    spec fn well_formed(self) -> bool {
        &&& self.len <= FRAME_BITS
        &&& self.bytes[0] < limit(taken(self.len as int, 0))
        &&& self.bytes[1] < limit(taken(self.len as int, 1))
        &&& self.bytes[2] < limit(taken(self.len as int, 2))
        &&& self.bytes[3] < limit(taken(self.len as int, 3))
        &&& self.bytes[4] < limit(taken(self.len as int, 4))
    }

    proof fn lemma_view_len(self)
        requires
            self.well_formed(),
        ensures
            self@.len() == self.len,
    {
        lemma_expand_len(self.bytes[0] as nat, taken(self.len as int, 0));
        lemma_expand_len(self.bytes[1] as nat, taken(self.len as int, 1));
        lemma_expand_len(self.bytes[2] as nat, taken(self.len as int, 2));
        lemma_expand_len(self.bytes[3] as nat, taken(self.len as int, 3));
        lemma_expand_len(self.bytes[4] as nat, taken(self.len as int, 4));
    }

    /// An empty buffer.
    pub fn new() -> (buffer: BitBuffer)
        ensures
            buffer@ == Seq::<bool>::empty(),
    {
        let buffer = BitBuffer { bytes: [0, 0, 0, 0, 0], len: 0 };
        proof {
            buffer.lemma_view_len();
            assert(buffer@ =~= Seq::<bool>::empty());
        }
        buffer
    }

    /// The number of bits stored, at most forty.
    pub fn len(&self) -> (len: u8)
        ensures
            len == self@.len(),
            len <= FRAME_BITS,
    {
        proof {
            use_type_invariant(self);
            self.lemma_view_len();
        }
        self.len
    }

    /// Whether all forty bits of a frame are stored.
    pub fn is_full(&self) -> (full: bool)
        ensures
            full == (self@.len() == FRAME_BITS),
            self@.len() <= FRAME_BITS,
    {
        self.len() == FRAME_BITS
    }

    /// Appends a bit. A full buffer stays as it is, and the call says so by
    /// returning `false`.
    pub fn push(&mut self, bit: bool) -> (stored: bool)
        ensures
            stored == (old(self)@.len() < FRAME_BITS),
            stored ==> final(self)@ == old(self)@.push(bit),
            !stored ==> *final(self) == *old(self),
    {
        proof {
            use_type_invariant(&*self);
            self.lemma_view_len();
        }
        if self.len >= FRAME_BITS {
            return false;
        }
        let index = (self.len / 8) as usize;
        let mut bytes = self.bytes;
        let before = bytes[index];
        proof {
            lemma_limit_bound(taken(self.len as int, index as int));
        }
        let shifted: u8 = before << 1;
        assert(shifted == 2 * before) by (bit_vector)
            requires
                shifted == before << 1,
                before < 128,
        ;
        let after: u8 = if bit {
            shifted | 1
        } else {
            shifted
        };
        assert(after == shifted + if bit { 1int } else { 0int }) by (bit_vector)
            requires
                after == if bit { shifted | 1 } else { shifted },
                shifted % 2 == 0,
        ;
        bytes[index] = after;
        let grown = BitBuffer { bytes, len: self.len + 1 };
        proof {
            self.lemma_push(grown, bit);
        }
        *self = grown;
        true
    }

    proof fn lemma_push(self, grown: BitBuffer, bit: bool)
        requires
            self.well_formed(),
            self.len < FRAME_BITS,
            grown.len == self.len + 1,
            grown.bytes@ == self.bytes@.update(
                self.len as int / 8,
                (2 * self.bytes[self.len as int / 8] + if bit { 1int } else { 0int }) as u8,
            ),
            2 * self.bytes[self.len as int / 8] + 1 < 256,
        ensures
            grown.well_formed(),
            grown@ == self@.push(bit),
    {
        let len = self.len as int;
        let k = len / 8;
        let m = taken(len, k);
        let before = self.bytes[k] as nat;
        let after = grown.bytes[k] as nat;
        assert(taken(len + 1, k) == m + 1);
        assert(limit(m + 1) == 2 * limit(m));
        assert(after / 2 == before && (after % 2 == 1) == bit);
        assert(expand(after, m + 1) == expand(before, m).push(bit));
        assert forall|j: int| 0 <= j < 5 && j != k implies grown.bytes[j] == self.bytes[j]
            && taken(len + 1, j) == taken(len, j) by {}
        assert forall|j: int| k < j < 5 implies expand(self.bytes[j] as nat, taken(len, j))
            =~= Seq::<bool>::empty() by {}
        assert(grown@ =~= self@.push(bit));
    }

    /// The bytes that hold the stored bits.
    pub fn bytes(&self) -> (bytes: [u8; 5])
        ensures
            bytes@ == packed(self@),
    {
        proof {
            use_type_invariant(self);
            self.lemma_view_len();
            self.lemma_octets();
            assert(self.bytes@ =~= packed(self@));
        }
        self.bytes
    }

    proof fn lemma_octets(self)
        requires
            self.well_formed(),
        ensures
            forall|k: int| 0 <= k < 5 ==> value_of(#[trigger] octet(self@, k)) == self.bytes[k],
    {
        let len = self.len as int;
        lemma_expand_len(self.bytes[0] as nat, taken(len, 0));
        lemma_expand_len(self.bytes[1] as nat, taken(len, 1));
        lemma_expand_len(self.bytes[2] as nat, taken(len, 2));
        lemma_expand_len(self.bytes[3] as nat, taken(len, 3));
        lemma_expand_len(self.bytes[4] as nat, taken(len, 4));
        assert forall|k: int| 0 <= k < 5 implies value_of(#[trigger] octet(self@, k))
            == self.bytes[k] by {
            assert(octet(self@, k) =~= expand(self.bytes[k] as nat, taken(len, k)));
            lemma_expand_value(self.bytes[k] as nat, taken(len, k));
        }
    }
}

} // verus!
