use vstd::prelude::*;

verus! {

/// `byte` with bit `bit % 8` inverted.
pub open spec fn spec_bit_flip(byte: u8, bit: u8) -> u8 {
    byte ^ (1u8 << (bit & 7))
}

/// `byte` with bit `bit % 8` forced to one.
pub open spec fn spec_bit_set(byte: u8, bit: u8) -> u8 {
    byte | (1u8 << (bit & 7))
}

/// `byte` with bit `bit % 8` forced to zero.
pub open spec fn spec_bit_clear(byte: u8, bit: u8) -> u8 {
    byte & !(1u8 << (bit & 7))
}

/// Value (0 or 1) of bit `i` of `byte`.
pub open spec fn bit_of(byte: u8, i: u8) -> u8 {
    (byte >> i) & 1
}

/// Inverts bit `bit % 8` of `byte`.
pub fn bit_flip(byte: u8, bit: u8) -> (r: u8)
    ensures
        r == spec_bit_flip(byte, bit),
{
    assert(bit & 7 < 8) by (bit_vector);
    byte ^ (1u8 << (bit & 7))
}

/// Forces bit `bit % 8` of `byte` to one.
pub fn bit_set(byte: u8, bit: u8) -> (r: u8)
    ensures
        r == spec_bit_set(byte, bit),
{
    assert(bit & 7 < 8) by (bit_vector);
    byte | (1u8 << (bit & 7))
}

/// Forces bit `bit % 8` of `byte` to zero.
pub fn bit_clear(byte: u8, bit: u8) -> (r: u8)
    ensures
        r == spec_bit_clear(byte, bit),
{
    assert(bit & 7 < 8) by (bit_vector);
    byte & !(1u8 << (bit & 7))
}

/// Flipping the same bit twice gives the byte back, and a flip always changes
/// the byte: exactly bit `bit % 8` differs, every other bit is kept.
pub proof fn lemma_bit_flip(byte: u8, bit: u8)
    ensures
        spec_bit_flip(spec_bit_flip(byte, bit), bit) == byte,
        spec_bit_flip(byte, bit) != byte,
        bit_of(spec_bit_flip(byte, bit), bit & 7) != bit_of(byte, bit & 7),
        forall|i: u8| i < 8 && i != (bit & 7) ==> #[trigger] bit_of(spec_bit_flip(byte, bit), i) == bit_of(byte, i),
{
    assert(((byte ^ (1u8 << (bit & 7))) ^ (1u8 << (bit & 7))) == byte) by (bit_vector);
    assert((byte ^ (1u8 << (bit & 7))) != byte) by (bit_vector);
    assert((((byte ^ (1u8 << (bit & 7))) >> (bit & 7)) & 1) != ((byte >> (bit & 7)) & 1)) by (bit_vector);
    assert forall|i: u8| i < 8 && i != (bit & 7) implies #[trigger] bit_of(spec_bit_flip(byte, bit), i) == bit_of(byte, i) by {
        assert(i < 8 && i != (bit & 7) ==> (((byte ^ (1u8 << (bit & 7))) >> i) & 1) == ((byte >> i) & 1)) by (bit_vector);
    }
}

/// After a set, bit `bit % 8` is one, every other bit is kept, and setting it
/// again changes nothing.
pub proof fn lemma_bit_set(byte: u8, bit: u8)
    ensures
        bit_of(spec_bit_set(byte, bit), bit & 7) == 1,
        spec_bit_set(spec_bit_set(byte, bit), bit) == spec_bit_set(byte, bit),
        forall|i: u8| i < 8 && i != (bit & 7) ==> #[trigger] bit_of(spec_bit_set(byte, bit), i) == bit_of(byte, i),
{
    assert((((byte | (1u8 << (bit & 7))) >> (bit & 7)) & 1) == 1) by (bit_vector);
    assert(((byte | (1u8 << (bit & 7))) | (1u8 << (bit & 7))) == (byte | (1u8 << (bit & 7)))) by (bit_vector);
    assert forall|i: u8| i < 8 && i != (bit & 7) implies #[trigger] bit_of(spec_bit_set(byte, bit), i) == bit_of(byte, i) by {
        assert(i < 8 && i != (bit & 7) ==> (((byte | (1u8 << (bit & 7))) >> i) & 1) == ((byte >> i) & 1)) by (bit_vector);
    }
}

/// After a clear, bit `bit % 8` is zero, every other bit is kept, and
/// clearing it again changes nothing.
pub proof fn lemma_bit_clear(byte: u8, bit: u8)
    ensures
        bit_of(spec_bit_clear(byte, bit), bit & 7) == 0,
        spec_bit_clear(spec_bit_clear(byte, bit), bit) == spec_bit_clear(byte, bit),
        forall|i: u8| i < 8 && i != (bit & 7) ==> #[trigger] bit_of(spec_bit_clear(byte, bit), i) == bit_of(byte, i),
{
    assert((((byte & !(1u8 << (bit & 7))) >> (bit & 7)) & 1) == 0) by (bit_vector);
    assert(((byte & !(1u8 << (bit & 7))) & !(1u8 << (bit & 7))) == (byte & !(1u8 << (bit & 7)))) by (bit_vector);
    assert forall|i: u8| i < 8 && i != (bit & 7) implies #[trigger] bit_of(spec_bit_clear(byte, bit), i) == bit_of(byte, i) by {
        assert(i < 8 && i != (bit & 7) ==> (((byte & !(1u8 << (bit & 7))) >> i) & 1) == ((byte >> i) & 1)) by (bit_vector);
    }
}

/// One step of the 16-bit Fibonacci shift register with taps 0, 2, 3 and 5:
/// shift right and feed the parity of the taps in at bit 15.
pub open spec fn lfsr_step(s: u16) -> u16 {
    (s >> 1) | ((((s >> 0) ^ (s >> 2) ^ (s >> 3) ^ (s >> 5)) & 1) << 15)
}

/// The register never reaches the all-zero state from any other state.
pub proof fn lemma_lfsr_step_nonzero(s: u16)
    requires
        s != 0,
    ensures
        lfsr_step(s) != 0,
{
    assert(s != 0 ==> ((s >> 1) | ((((s >> 0) ^ (s >> 2) ^ (s >> 3) ^ (s >> 5)) & 1) << 15)) != 0)
        by (bit_vector);
}

/// Pseudo-random source used to decide whether and where to inject.
pub struct Lfsr {
    state: u16,
}

impl View for Lfsr {
    type V = u16;

    closed spec fn view(&self) -> u16 {
        self.state
    }
}

impl Lfsr {
    #[verifier::type_invariant]
    spec fn nonzero(&self) -> bool {
        self.state != 0
    }

    /// A register seeded with `seed`, or with 1 when `seed` is zero.
    pub fn new(seed: u16) -> (r: Lfsr)
        ensures
            r@ == (if seed == 0 { 1u16 } else { seed }),
            r@ != 0,
    {
        Lfsr { state: if seed == 0 { 1 } else { seed } }
    }

    /// Advances the register one step and returns the new state, never zero.
    pub fn next(&mut self) -> (r: u16)
        ensures
            final(self)@ == lfsr_step(old(self)@),
            r == final(self)@,
            r != 0,
    {
        proof {
            use_type_invariant(&*self);
            lemma_lfsr_step_nonzero(self.state);
        }
        let s = self.state;
        let bit = ((s >> 0) ^ (s >> 2) ^ (s >> 3) ^ (s >> 5)) & 1;
        self.state = (s >> 1) | (bit << 15);
        self.state
    }

    /// Advances the register and returns its three low bits: a bit index below 8.
    pub fn next_bit(&mut self) -> (r: u8)
        ensures
            final(self)@ == lfsr_step(old(self)@),
            r == (final(self)@ & 7) as u8,
            r < 8,
    {
        let v = self.next();
        assert(v & 7 < 8) by (bit_vector);
        (v & 0x07) as u8
    }
}

/// Whether to inject with probability `permille` / 1000, and the register
/// state afterwards: never at 0, always at 1000 or more (the register is not
/// touched in either case), otherwise when the ten low bits of the next state
/// are below `permille`.
pub open spec fn roll(s: u16, permille: u16) -> (bool, u16) {
    if permille == 0 {
        (false, s)
    } else if permille >= 1000 {
        (true, s)
    } else {
        let n = lfsr_step(s);
        ((n & 0x03FF) < permille, n)
    }
}

/// Decides whether to inject a fault with probability `permille` / 1000.
pub fn should_inject(lfsr: &mut Lfsr, permille: u16) -> (r: bool)
    ensures
        (r, final(lfsr)@) == roll(old(lfsr)@, permille),
{
    if permille == 0 {
        return false;
    }
    if permille >= 1000 {
        return true;
    }
    let r = lfsr.next() & 0x03FF;
    r < permille
}

/// A register index `target` when it is below `limit`, otherwise a
/// pseudo-random index drawn from the next register state reduced modulo
/// `limit`; with the register state afterwards.
pub open spec fn pick_bit(target: u8, limit: u8, s: u16) -> (u8, u16) {
    if target < limit {
        (target, s)
    } else {
        let n = lfsr_step(s);
        (((n & 7) as u8) % limit, n)
    }
}

/// Picks the bit to corrupt: the configured `target` when below `limit`,
/// otherwise a pseudo-random one below `limit`.
pub(crate) fn pick_bit_index(lfsr: &mut Lfsr, target: u8, limit: u8) -> (r: u8)
    requires
        0 < limit,
    ensures
        (r, final(lfsr)@) == pick_bit(target, limit, old(lfsr)@),
        r < limit,
{
    if target < limit {
        target
    } else {
        lfsr.next_bit() % limit
    }
}

/// A zero probability never injects and a probability of 1000 or more always
/// does, and in both cases the register is left as it was.
pub proof fn lemma_roll_extremes(s: u16, permille: u16)
    ensures
        permille == 0 ==> roll(s, permille) == (false, s),
        permille >= 1000 ==> roll(s, permille) == (true, s),
{
}

/// A configured bit below the limit is used as is and leaves the register
/// alone; a drawn bit is always below the limit.
pub proof fn lemma_pick_bit(target: u8, limit: u8, s: u16)
    requires
        0 < limit,
    ensures
        pick_bit(target, limit, s).0 < limit,
        target < limit ==> pick_bit(target, limit, s) == (target, s),
{
}

/// `a` and `b` differ in exactly one of their eight bits.
pub open spec fn one_bit_apart(a: u8, b: u8) -> bool {
    exists|i: u8| i < 8 && a == #[trigger] (b ^ (1u8 << i))
}

/// A bit number below eight selects itself.
pub proof fn lemma_small_bit(t: u8)
    requires
        t < 8,
    ensures
        t & 7 == t,
{
    assert(t < 8 ==> t & 7 == t) by (bit_vector);
}

/// Flipping any bit changes the byte in exactly one bit.
pub proof fn lemma_flip_changes_one_bit(byte: u8, bit: u8)
    ensures
        spec_bit_flip(byte, bit) != byte,
        one_bit_apart(spec_bit_flip(byte, bit), byte),
{
    assert(bit & 7 < 8) by (bit_vector);
    lemma_bit_flip(byte, bit);
    assert(spec_bit_flip(byte, bit) == byte ^ (1u8 << (bit & 7)));
}

} // verus!
