use vstd::prelude::*;

verus! {

/// Bitset error
#[derive(Debug, PartialEq, Eq)]
pub enum Error {
    /// Out of range index
    OutofRange,
}

/// Number of flags that the packed integer behind a bitset can hold.
pub const MAX_POSITION: usize = 16;

/// Whether bit `i` of `v` is set. No bit is set outside the sixteen positions of `v`.
pub open spec fn bit_is_set(v: u16, i: int) -> bool {
    0 <= i < 16 && (v >> (i as u16)) & 1 == 1
}

/// The positions of the bits that are set in `v`.
pub open spec fn bits_of(v: u16) -> Set<int> {
    Set::new(|i: int| bit_is_set(v, i))
}

/// The positions `0..n`.
pub open spec fn positions_below(n: int) -> Set<int> {
    Set::new(|i: int| 0 <= i < n)
}

/// A set of flags at the positions `0..N`, packed into one integer. `N` is at most 16.
#[derive(Debug)]
pub struct Bitset<const N: usize> {
    underlying: u16,
}

impl<const N: usize> View for Bitset<N> {
    type V = Set<int>;

    /// The positions of the flags that are set.
    closed spec fn view(&self) -> Set<int> {
        bits_of(self.underlying)
    }
}

impl<const N: usize> Default for Bitset<N> {
    /// The bitset with no flag set.
    fn default() -> (b: Self)
        ensures
            b@ == Set::<int>::empty(),
    {
        proof {
            lemma_bits_of_zero();
        }
        Bitset { underlying: 0 }
    }
}

impl<const N: usize> Bitset<N> {
    /// Resets bitset to none set.
    pub fn reset(&mut self)
        ensures
            final(self)@ == Set::<int>::empty(),
        no_unwind
    {
        proof {
            lemma_bits_of_zero();
        }
        self.underlying = 0;
    }

    /// Sets the bit at position to true
    ///
    /// # Errors
    /// Returns an error, and changes nothing, if position is beyond `N` or beyond the last
    /// bit of the packed integer.
    pub fn set_bit(&mut self, position: usize) -> (r: Result<(), Error>)
        ensures
            r is Ok <==> position <= N && position < MAX_POSITION,
            r is Ok ==> final(self)@ == old(self)@.insert(position as int),
            r is Err ==> final(self)@ == old(self)@ && r == Err::<(), Error>(Error::OutofRange),
        no_unwind
    {
        if position > N || position >= MAX_POSITION {
            return Err(Error::OutofRange);
        }
        let shift: u16 = position as u16;
        proof {
            lemma_bits_of_set(self.underlying, shift);
        }
        self.underlying = self.underlying | (1u16 << shift);
        Ok(())
    }

    /// Returns true if all the bits at the positions `0..N` are set
    pub fn all(&self) -> (r: bool)
        ensures
            r <==> positions_below(N as int).subset_of(self@),
    {
        if N > MAX_POSITION {
            assert(!self@.contains(16));
            assert(positions_below(N as int).contains(16));
            return false;
        }
        let width: u32 = N as u32;
        proof {
            assert(1 <= (1u32 << width) <= 0x1_0000) by (bit_vector)
                requires
                    width <= 16,
            ;
            lemma_mask_covers(self.underlying, width);
        }
        let mask: u16 = ((1u32 << width) - 1) as u16;
        self.underlying & mask == mask
    }

    /// Returns the number of bits that are set
    pub fn count(&self) -> (r: usize)
        ensures
            self@.finite(),
            r == self@.len(),
    {
        let mut n: usize = 0;
        let mut i: u16 = 0;
        proof {
            assert(bits_below(self.underlying, 0) =~= Set::<int>::empty());
        }
        while i < 16
            invariant
                i <= 16,
                n <= i,
                bits_below(self.underlying, i as int).finite(),
                n == bits_below(self.underlying, i as int).len(),
            decreases 16 - i,
        {
            proof {
                lemma_bits_below_step(self.underlying, i as int);
            }
            if (self.underlying >> i) & 1 == 1 {
                n += 1;
            }
            i += 1;
        }
        proof {
            assert(bits_below(self.underlying, 16) =~= bits_of(self.underlying));
        }
        n
    }

    /// Returns the underlying value of the bitset: bit `i` of it is set exactly if the flag
    /// at position `i` is.
    pub fn value(&self) -> (v: u16)
        ensures
            bits_of(v) == self@,
    {
        self.underlying
    }
}

/// The positions below `k` of the bits that are set in `v`.
pub open spec fn bits_below(v: u16, k: int) -> Set<int> {
    Set::new(|i: int| i < k && bit_is_set(v, i))
}

/// No bit of zero is set.
pub proof fn lemma_bits_of_zero()
    ensures
        bits_of(0) == Set::<int>::empty(),
{
    assert forall|i: int| !bit_is_set(0, i) by {
        if 0 <= i < 16 {
            let s = i as u16;
            assert((0u16 >> s) & 1 == 0) by (bit_vector);
        }
    }
    assert(bits_of(0) =~= Set::<int>::empty());
}

/// Or-ing bit `p` into `v` adds position `p` and changes no other.
pub proof fn lemma_bits_of_set(v: u16, p: u16)
    requires
        p < 16,
    ensures
        bits_of(v | (1u16 << p)) == bits_of(v).insert(p as int),
{
    let w = v | (1u16 << p);
    assert forall|i: int| bit_is_set(w, i) <==> (bit_is_set(v, i) || i == p) by {
        if 0 <= i < 16 {
            let s = i as u16;
            assert(((v | (1u16 << p)) >> s) & 1 == 1 <==> ((v >> s) & 1 == 1 || s == p))
                by (bit_vector)
                requires
                    p < 16,
                    s < 16,
            ;
        }
    }
    assert(bits_of(w) =~= bits_of(v).insert(p as int));
}

/// Two packed integers with the same bits set are the same.
pub proof fn lemma_bits_of_injective(a: u16, b: u16)
    requires
        bits_of(a) == bits_of(b),
    ensures
        a == b,
{
    assert forall|i: int| bit_is_set(a, i) == bit_is_set(b, i) by {
        assert(bits_of(a).contains(i) == bit_is_set(a, i));
        assert(bits_of(b).contains(i) == bit_is_set(b, i));
    }
    assert(bit_is_set(a, 0) == bit_is_set(b, 0));
    assert(bit_is_set(a, 1) == bit_is_set(b, 1));
    assert(bit_is_set(a, 2) == bit_is_set(b, 2));
    assert(bit_is_set(a, 3) == bit_is_set(b, 3));
    assert(bit_is_set(a, 4) == bit_is_set(b, 4));
    assert(bit_is_set(a, 5) == bit_is_set(b, 5));
    assert(bit_is_set(a, 6) == bit_is_set(b, 6));
    assert(bit_is_set(a, 7) == bit_is_set(b, 7));
    assert(bit_is_set(a, 8) == bit_is_set(b, 8));
    assert(bit_is_set(a, 9) == bit_is_set(b, 9));
    assert(bit_is_set(a, 10) == bit_is_set(b, 10));
    assert(bit_is_set(a, 11) == bit_is_set(b, 11));
    assert(bit_is_set(a, 12) == bit_is_set(b, 12));
    assert(bit_is_set(a, 13) == bit_is_set(b, 13));
    assert(bit_is_set(a, 14) == bit_is_set(b, 14));
    assert(bit_is_set(a, 15) == bit_is_set(b, 15));
    assert(a == b) by (bit_vector)
        requires
            ((a >> 0u16) & 1 == 1) == ((b >> 0u16) & 1 == 1),
            ((a >> 1u16) & 1 == 1) == ((b >> 1u16) & 1 == 1),
            ((a >> 2u16) & 1 == 1) == ((b >> 2u16) & 1 == 1),
            ((a >> 3u16) & 1 == 1) == ((b >> 3u16) & 1 == 1),
            ((a >> 4u16) & 1 == 1) == ((b >> 4u16) & 1 == 1),
            ((a >> 5u16) & 1 == 1) == ((b >> 5u16) & 1 == 1),
            ((a >> 6u16) & 1 == 1) == ((b >> 6u16) & 1 == 1),
            ((a >> 7u16) & 1 == 1) == ((b >> 7u16) & 1 == 1),
            ((a >> 8u16) & 1 == 1) == ((b >> 8u16) & 1 == 1),
            ((a >> 9u16) & 1 == 1) == ((b >> 9u16) & 1 == 1),
            ((a >> 10u16) & 1 == 1) == ((b >> 10u16) & 1 == 1),
            ((a >> 11u16) & 1 == 1) == ((b >> 11u16) & 1 == 1),
            ((a >> 12u16) & 1 == 1) == ((b >> 12u16) & 1 == 1),
            ((a >> 13u16) & 1 == 1) == ((b >> 13u16) & 1 == 1),
            ((a >> 14u16) & 1 == 1) == ((b >> 14u16) & 1 == 1),
            ((a >> 15u16) & 1 == 1) == ((b >> 15u16) & 1 == 1),
    ;
}

/// `v` keeps the mask of its `n` lowest bits exactly if each of these bits is set in `v`.
pub proof fn lemma_mask_covers(v: u16, n: u32)
    requires
        n <= 16,
    ensures
        (v & (((1u32 << n) - 1) as u16) == (((1u32 << n) - 1) as u16)) <==> positions_below(
            n as int,
        ).subset_of(bits_of(v)),
    decreases n,
{
    let mask = ((1u32 << n) - 1) as u16;
    assert(1 <= (1u32 << n) <= 0x1_0000) by (bit_vector)
        requires
            n <= 16,
    ;
    if v & mask == mask {
        assert forall|i: int| positions_below(n as int).contains(i) implies bits_of(v).contains(
            i,
        ) by {
            let s = i as u16;
            assert((v >> s) & 1 == 1) by (bit_vector)
                requires
                    v & (((1u32 << n) - 1) as u16) == (((1u32 << n) - 1) as u16),
                    s < n,
                    n <= 16,
            ;
        }
    }
    if positions_below(n as int).subset_of(bits_of(v)) {
        if n == 0 {
            assert(v & (((1u32 << 0u32) - 1) as u16) == (((1u32 << 0u32) - 1) as u16))
                by (bit_vector);
        } else {
            let m = (n - 1) as u32;
            lemma_mask_covers(v, m);
            assert(positions_below(m as int).subset_of(bits_of(v))) by {
                assert forall|i: int| positions_below(m as int).contains(i) implies bits_of(
                    v,
                ).contains(i) by {
                    assert(positions_below(n as int).contains(i));
                }
            }
            assert(positions_below(n as int).contains(m as int));
            assert(bit_is_set(v, m as int));
            let s = m as u16;
            assert(v & (((1u32 << n) - 1) as u16) == (((1u32 << n) - 1) as u16)) by (bit_vector)
                requires
                    v & (((1u32 << m) - 1) as u16) == (((1u32 << m) - 1) as u16),
                    (v >> s) & 1 == 1,
                    s == m,
                    n == m + 1,
                    n <= 16,
            ;
        }
    }
}

/// The set bits below `k + 1` are those below `k`, and `k` itself if bit `k` is set.
pub proof fn lemma_bits_below_step(v: u16, k: int)
    requires
        0 <= k < 16,
        bits_below(v, k).finite(),
    ensures
        bits_below(v, k + 1).finite(),
        bit_is_set(v, k) <==> (v >> (k as u16)) & 1 == 1,
        bits_below(v, k + 1).len() == bits_below(v, k).len() + if bit_is_set(v, k) {
            1nat
        } else {
            0nat
        },
{
    if bit_is_set(v, k) {
        assert(bits_below(v, k + 1) =~= bits_below(v, k).insert(k));
    } else {
        assert(bits_below(v, k + 1) =~= bits_below(v, k));
    }
}

} // verus!
