//! A fixed-capacity dirty-bit mask.
//!
//! A `StateMask` records, per declared field of a replicated component,
//! whether that field changed since the last acknowledged sync. Bit index
//! `i` lives in byte `i / 8` at intra-byte offset `i % 8`
//! (least-significant-bit first); `bits[0]` holds indices 0 through 7,
//! `bits[1]` holds indices 8 through 15, and so on.

use vstd::prelude::*;

verus! {

/// Bit `k` of `byte`, least-significant-bit first.
pub open spec fn nth_bit(byte: u8, k: u8) -> bool {
    (byte >> k) & 1u8 == 1u8
}

/// Bit `i` of a byte sequence: byte `i / 8`, intra-byte offset `i % 8`.
pub open spec fn seq_bit(bits: Seq<u8>, i: int) -> bool
    recommends
        0 <= i < 8 * bits.len(),
{
    nth_bit(bits[i / 8], (i % 8) as u8)
}

/// `byte` with bit `k` set to `v` and every other bit unchanged.
pub open spec fn with_nth_bit(byte: u8, k: u8, v: bool) -> u8 {
    if v {
        byte | (1u8 << k)
    } else {
        byte & !(1u8 << k)
    }
}

/// The byte sequence after writing `v` at bit index `i`: unchanged when
/// `i` falls outside the capacity.
pub open spec fn spec_set_bit(bits: Seq<u8>, i: int, v: bool) -> Seq<u8> {
    if 0 <= i < 8 * bits.len() {
        bits.update(i / 8, with_nth_bit(bits[i / 8], (i % 8) as u8, v))
    } else {
        bits
    }
}

/// Every byte of the sequence is zero.
pub open spec fn all_clear(bits: Seq<u8>) -> bool {
    forall|j: int| 0 <= j < bits.len() ==> bits[j] == 0u8
}

/// `n` zero bytes: the state of a freshly created or cleared mask.
pub open spec fn spec_cleared(n: u8) -> Seq<u8> {
    Seq::new(n as nat, |j: int| 0u8)
}

/// Bytewise AND-NOT of two sequences of equal length; the left operand
/// unchanged when the lengths differ.
pub open spec fn spec_nand(a: Seq<u8>, b: Seq<u8>) -> Seq<u8> {
    if a.len() == b.len() {
        Seq::new(a.len(), |j: int| a[j] & !b[j])
    } else {
        a
    }
}

/// Bytewise OR of two sequences of equal length; the left operand
/// unchanged when the lengths differ.
pub open spec fn spec_or(a: Seq<u8>, b: Seq<u8>) -> Seq<u8> {
    if a.len() == b.len() {
        Seq::new(a.len(), |j: int| a[j] | b[j])
    } else {
        a
    }
}

/// A fixed-capacity bit vector recording per-field dirty state for one
/// replicated component. The capacity in bytes is fixed at construction
/// and never changes.
pub struct StateMask {
    mask: Vec<u8>,
    bytes: u8,
}

impl View for StateMask {
    type V = Seq<u8>;

    closed spec fn view(&self) -> Seq<u8> {
        self.mask@
    }
}

impl StateMask {
    /// The capacity in bytes fixed at construction.
    pub closed spec fn capacity(&self) -> u8 {
        self.bytes
    }

    /// The stored byte sequence fills exactly the declared capacity.
    pub open spec fn wf(&self) -> bool {
        self@.len() == self.capacity() as int
    }

    /// A mask of `capacity` bytes (8 * `capacity` bits), all cleared.
    /// A capacity of 0 is legal and yields an always-empty mask.
    pub fn new(capacity: u8) -> (s: StateMask)
        ensures
            s.wf(),
            s.capacity() == capacity,
            s@ == spec_cleared(capacity),
    {
        let s = StateMask { bytes: capacity, mask: zeroed(capacity) };
        proof {
            assert(s@ =~= spec_cleared(capacity));
        }
        s
    }

    /// The dirty flag of bit `index`, or `None` when `index` falls outside
    /// the mask's `8 * capacity` bits. Out-of-range is a non-fatal query
    /// result, not a fault.
    pub fn get_bit(&self, index: u8) -> (r: Option<bool>)
        requires
            self.wf(),
        ensures
            (index as int) < 8 * self.capacity() ==> r == Some(seq_bit(self@, index as int)),
            (index as int) >= 8 * self.capacity() ==> r is None,
    {
        let byte_index = (index / 8) as usize;
        if byte_index < self.mask.len() {
            let byte = self.mask[byte_index];
            let offset = index % 8;
            let bit_set = byte & (1u8 << offset) != 0;
            proof {
                assert((byte & (1u8 << (index % 8)) != 0) == ((byte >> (index % 8)) & 1u8
                    == 1u8)) by (bit_vector);
            }
            Some(bit_set)
        } else {
            None
        }
    }

    /// Writes `value` at bit `index` when it is in range; silently no-ops
    /// otherwise, leaving the mask untouched.
    pub fn set_bit(&mut self, index: u8, value: bool)
        requires
            old(self).wf(),
        ensures
            final(self).wf(),
            final(self).capacity() == old(self).capacity(),
            final(self)@ == spec_set_bit(old(self)@, index as int, value),
    {
        let byte_index = (index / 8) as usize;
        if byte_index < self.mask.len() {
            let offset = index % 8;
            let bit_mask = 1u8 << offset;
            let byte = self.mask[byte_index];
            let updated = if value {
                byte | bit_mask
            } else {
                byte & !bit_mask
            };
            self.mask.set(byte_index, updated);
            proof {
                assert(self@ =~= spec_set_bit(old(self)@, index as int, value));
            }
        }
    }

    /// Resets every bit to 0 — called after a sync round is acknowledged
    /// by the peer.
    pub fn clear(&mut self)
        ensures
            final(self).wf(),
            final(self).capacity() == old(self).capacity(),
            final(self)@ == spec_cleared(old(self).capacity()),
    {
        self.mask = zeroed(self.bytes);
        proof {
            assert(self@ =~= spec_cleared(self.capacity()));
        }
    }

    /// True iff every byte is zero — used to skip sending a component
    /// with no pending changes.
    pub fn is_clear(&self) -> (r: bool)
        ensures
            r == all_clear(self@),
    {
        let mut n: usize = 0;
        while n < self.mask.len()
            invariant
                n <= self.mask@.len(),
                forall|j: int| 0 <= j < n ==> self.mask@[j] == 0u8,
            decreases self.mask@.len() - n,
        {
            if self.mask[n] != 0 {
                return false;
            }
            n = n + 1;
        }
        true
    }

    /// The capacity in bytes, used by callers to validate operand
    /// compatibility before calling `nand` or `or`.
    pub fn byte_number(&self) -> (r: u8)
        ensures
            r == self.capacity(),
    {
        self.bytes
    }

    /// Raw byte access for the external wire-encoding layer; this crate
    /// does not itself serialize.
    pub fn get_byte(&self, index: usize) -> (r: u8)
        requires
            self.wf(),
            index < self.capacity(),
        ensures
            r == self@[index as int],
    {
        self.mask[index]
    }

    /// Bytewise `self = self & !other` — subtracts an acknowledged change
    /// set from the pending one. A no-op when the operands' capacities
    /// differ.
    pub fn nand(&mut self, other: &StateMask)
        requires
            old(self).wf(),
            other.wf(),
        ensures
            final(self).wf(),
            final(self).capacity() == old(self).capacity(),
            final(self)@ == spec_nand(old(self)@, other@),
    {
        if other.byte_number() != self.byte_number() {
            return ;
        }
        let mut n: usize = 0;
        while n < self.mask.len()
            invariant
                self.wf(),
                self.capacity() == old(self).capacity(),
                other.wf(),
                self.capacity() == other.capacity(),
                n <= self.mask@.len(),
                forall|j: int| 0 <= j < n ==> self.mask@[j] == (old(self).mask@[j] & !other.mask@[j]),
                forall|j: int| n <= j < self.mask@.len() ==> self.mask@[j] == old(self).mask@[j],
            decreases self.mask@.len() - n,
        {
            let merged = self.mask[n] & !other.mask[n];
            self.mask.set(n, merged);
            n = n + 1;
        }
        proof {
            assert(self@ =~= spec_nand(old(self)@, other@));
        }
    }

    /// Bytewise union — merges a newly detected dirty set into the pending
    /// one. A no-op when the operands' capacities differ.
    pub fn or(&mut self, other: &StateMask)
        requires
            old(self).wf(),
            other.wf(),
        ensures
            final(self).wf(),
            final(self).capacity() == old(self).capacity(),
            final(self)@ == spec_or(old(self)@, other@),
    {
        if other.byte_number() != self.byte_number() {
            return ;
        }
        let mut n: usize = 0;
        while n < self.mask.len()
            invariant
                self.wf(),
                self.capacity() == old(self).capacity(),
                other.wf(),
                self.capacity() == other.capacity(),
                n <= self.mask@.len(),
                forall|j: int| 0 <= j < n ==> self.mask@[j] == (old(self).mask@[j] | other.mask@[j]),
                forall|j: int| n <= j < self.mask@.len() ==> self.mask@[j] == old(self).mask@[j],
            decreases self.mask@.len() - n,
        {
            let merged = self.mask[n] | other.mask[n];
            self.mask.set(n, merged);
            n = n + 1;
        }
        proof {
            assert(self@ =~= spec_or(old(self)@, other@));
        }
    }
}

/// Writing a bit and reading it back: for every in-range index `i`,
/// the write lands (`seq_bit` of the result at `i` is `v`) and every other
/// in-range bit is untouched.
pub proof fn lemma_set_bit_then_get_bit(bits: Seq<u8>, i: int, v: bool)
    requires
        0 <= i < 8 * bits.len(),
    ensures
        seq_bit(spec_set_bit(bits, i, v), i) == v,
        forall|j: int|
            0 <= j < 8 * bits.len() && j != i ==> seq_bit(spec_set_bit(bits, i, v), j) == seq_bit(
                bits,
                j,
            ),
{
    let bi = i / 8;
    let k = (i % 8) as u8;
    let b = bits[bi];
    assert(((b | (1u8 << k)) >> k) & 1u8 == 1u8) by (bit_vector)
        requires
            k < 8u8,
    ;
    assert(((b & !(1u8 << k)) >> k) & 1u8 == 0u8) by (bit_vector)
        requires
            k < 8u8,
    ;
    assert forall|j: int|
        0 <= j < 8 * bits.len() && j != i implies seq_bit(spec_set_bit(bits, i, v), j) == seq_bit(
        bits,
        j,
    ) by {
        let kj = (j % 8) as u8;
        if j / 8 == bi {
            assert(((b | (1u8 << k)) >> kj) & 1u8 == (b >> kj) & 1u8) by (bit_vector)
                requires
                    k < 8u8,
                    kj < 8u8,
                    k != kj,
            ;
            assert(((b & !(1u8 << k)) >> kj) & 1u8 == (b >> kj) & 1u8) by (bit_vector)
                requires
                    k < 8u8,
                    kj < 8u8,
                    k != kj,
            ;
        }
    };
}

/// Writing out of range changes nothing: for every index at or past the
/// mask's `8 * capacity` bits, the mask after the write is the mask before.
pub proof fn lemma_set_bit_out_of_range(bits: Seq<u8>, i: int, v: bool)
    requires
        i >= 8 * bits.len(),
    ensures
        spec_set_bit(bits, i, v) == bits,
{
}

/// A cleared mask is empty, whatever state preceded the clear.
pub proof fn lemma_cleared_is_clear(n: u8)
    ensures
        all_clear(spec_cleared(n)),
{
}

/// Emptiness at byte and at bit granularity agree: every byte is zero iff
/// every in-range bit is unset.
pub proof fn lemma_all_clear_iff_no_bit_set(bits: Seq<u8>)
    ensures
        all_clear(bits) <==> (forall|i: int| 0 <= i < 8 * bits.len() ==> !seq_bit(bits, i)),
{
    if all_clear(bits) {
        assert forall|i: int| 0 <= i < 8 * bits.len() implies !seq_bit(bits, i) by {
            let k = (i % 8) as u8;
            assert(bits[i / 8] == 0u8);
            assert((0u8 >> k) & 1u8 == 0u8) by (bit_vector);
        };
    }
    if forall|i: int| 0 <= i < 8 * bits.len() ==> !seq_bit(bits, i) {
        assert forall|j: int| 0 <= j < bits.len() implies bits[j] == 0u8 by {
            let b = bits[j];
            assert((8 * j + 0) / 8 == j && (8 * j + 0) % 8 == 0);
            assert((8 * j + 1) / 8 == j && (8 * j + 1) % 8 == 1);
            assert((8 * j + 2) / 8 == j && (8 * j + 2) % 8 == 2);
            assert((8 * j + 3) / 8 == j && (8 * j + 3) % 8 == 3);
            assert((8 * j + 4) / 8 == j && (8 * j + 4) % 8 == 4);
            assert((8 * j + 5) / 8 == j && (8 * j + 5) % 8 == 5);
            assert((8 * j + 6) / 8 == j && (8 * j + 6) % 8 == 6);
            assert((8 * j + 7) / 8 == j && (8 * j + 7) % 8 == 7);
            assert(!seq_bit(bits, 8 * j + 0));
            assert(!seq_bit(bits, 8 * j + 1));
            assert(!seq_bit(bits, 8 * j + 2));
            assert(!seq_bit(bits, 8 * j + 3));
            assert(!seq_bit(bits, 8 * j + 4));
            assert(!seq_bit(bits, 8 * j + 5));
            assert(!seq_bit(bits, 8 * j + 6));
            assert(!seq_bit(bits, 8 * j + 7));
            assert(b == 0u8) by (bit_vector)
                requires
                    (b >> 0u8) & 1u8 != 1u8,
                    (b >> 1u8) & 1u8 != 1u8,
                    (b >> 2u8) & 1u8 != 1u8,
                    (b >> 3u8) & 1u8 != 1u8,
                    (b >> 4u8) & 1u8 != 1u8,
                    (b >> 5u8) & 1u8 != 1u8,
                    (b >> 6u8) & 1u8 != 1u8,
                    (b >> 7u8) & 1u8 != 1u8,
            ;
        };
    }
}

/// On operands of equal capacity, `nand` is a true bitwise AND-NOT: each
/// in-range bit of the result is the left bit with the right bit
/// subtracted.
pub proof fn lemma_nand_is_and_not(a: Seq<u8>, b: Seq<u8>, i: int)
    requires
        a.len() == b.len(),
        0 <= i < 8 * a.len(),
    ensures
        seq_bit(spec_nand(a, b), i) == (seq_bit(a, i) && !seq_bit(b, i)),
{
    let x = a[i / 8];
    let y = b[i / 8];
    let k = (i % 8) as u8;
    assert((((x & !y) >> k) & 1u8 == 1u8) == ((x >> k) & 1u8 == 1u8 && !((y >> k) & 1u8
        == 1u8))) by (bit_vector);
}

/// On operands of mismatched capacity, `nand` leaves the left one
/// unchanged.
pub proof fn lemma_nand_capacity_mismatch(a: Seq<u8>, b: Seq<u8>)
    requires
        a.len() != b.len(),
    ensures
        spec_nand(a, b) == a,
{
}

/// On operands of equal capacity, `or` is a true bitwise OR: each in-range
/// bit of the result is the union of the operands' bits.
pub proof fn lemma_or_is_union(a: Seq<u8>, b: Seq<u8>, i: int)
    requires
        a.len() == b.len(),
        0 <= i < 8 * a.len(),
    ensures
        seq_bit(spec_or(a, b), i) == (seq_bit(a, i) || seq_bit(b, i)),
{
    let x = a[i / 8];
    let y = b[i / 8];
    let k = (i % 8) as u8;
    assert((((x | y) >> k) & 1u8 == 1u8) == ((x >> k) & 1u8 == 1u8 || (y >> k) & 1u8
        == 1u8)) by (bit_vector);
}

/// On operands of mismatched capacity, `or` leaves the left one unchanged.
pub proof fn lemma_or_capacity_mismatch(a: Seq<u8>, b: Seq<u8>)
    requires
        a.len() != b.len(),
    ensures
        spec_or(a, b) == a,
{
}

/// A vector of `n` zero bytes.
fn zeroed(n: u8) -> (r: Vec<u8>)
    ensures
        r@.len() == n as int,
        all_clear(r@),
{
    let mut r: Vec<u8> = Vec::new();
    let mut i: u8 = 0;
    while i < n
        invariant
            i <= n,
            r@.len() == i as int,
            all_clear(r@),
        decreases n - i,
    {
        r.push(0);
        i = i + 1;
    }
    r
}

} // verus!
