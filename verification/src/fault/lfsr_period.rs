//! Maximal period of the injection register.
//!
//! Stepping the register is linear over GF(2), so `n` steps are the linear
//! map sending each bit to the state that bit alone reaches in `n` steps.
//! The images of the sixteen bits under 2^j steps are tabulated and checked
//! one square at a time; composing powers along the binary digits of 65535
//! and of 65535 / p for p = 3, 5, 17, 257 gives the maps for those numbers of
//! steps, checked bit by bit to be the identity and to fix no nonzero state.
//! The least return time of a nonzero state then divides 65535 and none of
//! its maximal proper divisors, so it is 65535.

use vstd::prelude::*;

use super::bits::{lemma_lfsr_step_nonzero, lfsr_step};

verus! {

/// State of the register after `n` steps from `s`.
pub open spec fn lfsr_iter(s: u16, n: nat) -> u16
    decreases n,
{
    if n == 0 {
        s
    } else {
        lfsr_step(lfsr_iter(s, (n - 1) as nat))
    }
}

/// Stepping `a + b` times is stepping `a` times, then `b` times.
pub proof fn lemma_iter_add(s: u16, a: nat, b: nat)
    ensures
        lfsr_iter(s, a + b) == lfsr_iter(lfsr_iter(s, a), b),
    decreases b,
{
    if b > 0 {
        lemma_iter_add(s, a, (b - 1) as nat);
        assert(lfsr_iter(s, a + b) == lfsr_step(lfsr_iter(s, (a + b - 1) as nat)));
    }
}

/// No number of steps leads from a nonzero state to zero.
pub proof fn lemma_iter_nonzero(s: u16, n: nat)
    requires
        s != 0,
    ensures
        lfsr_iter(s, n) != 0,
    decreases n,
{
    if n > 0 {
        lemma_iter_nonzero(s, (n - 1) as nat);
        lemma_lfsr_step_nonzero(lfsr_iter(s, (n - 1) as nat));
    }
}

/// One step is linear over GF(2): it maps XOR to XOR and zero to zero.
proof fn lemma_step_linear(a: u16, b: u16)
    by (bit_vector)
    ensures
        lfsr_step(a ^ b) == lfsr_step(a) ^ lfsr_step(b),
        lfsr_step(0) == 0,
{
}

/// So is any number of steps.
proof fn lemma_iter_linear(a: u16, b: u16, n: nat)
    ensures
        lfsr_iter(a ^ b, n) == lfsr_iter(a, n) ^ lfsr_iter(b, n),
        lfsr_iter(0, n) == 0,
    decreases n,
{
    if n > 0 {
        lemma_iter_linear(a, b, (n - 1) as nat);
        lemma_step_linear(lfsr_iter(a, (n - 1) as nat), lfsr_iter(b, (n - 1) as nat));
    }
}

/// The linear map over GF(2) that sends bit `i` to `c[i]`: the XOR of the
/// `c[i]` for the bits `i` set in `x`.
#[verifier::opaque]
pub open spec fn lin16(
    c0: u16, c1: u16, c2: u16, c3: u16, c4: u16, c5: u16, c6: u16, c7: u16,
    c8: u16, c9: u16, c10: u16, c11: u16, c12: u16, c13: u16, c14: u16, c15: u16,
    x: u16,
) -> u16 {
    (if x & 0x0001u16 != 0 { c0 } else { 0u16 })
        ^ (if x & 0x0002u16 != 0 { c1 } else { 0u16 })
        ^ (if x & 0x0004u16 != 0 { c2 } else { 0u16 })
        ^ (if x & 0x0008u16 != 0 { c3 } else { 0u16 })
        ^ (if x & 0x0010u16 != 0 { c4 } else { 0u16 })
        ^ (if x & 0x0020u16 != 0 { c5 } else { 0u16 })
        ^ (if x & 0x0040u16 != 0 { c6 } else { 0u16 })
        ^ (if x & 0x0080u16 != 0 { c7 } else { 0u16 })
        ^ (if x & 0x0100u16 != 0 { c8 } else { 0u16 })
        ^ (if x & 0x0200u16 != 0 { c9 } else { 0u16 })
        ^ (if x & 0x0400u16 != 0 { c10 } else { 0u16 })
        ^ (if x & 0x0800u16 != 0 { c11 } else { 0u16 })
        ^ (if x & 0x1000u16 != 0 { c12 } else { 0u16 })
        ^ (if x & 0x2000u16 != 0 { c13 } else { 0u16 })
        ^ (if x & 0x4000u16 != 0 { c14 } else { 0u16 })
        ^ (if x & 0x8000u16 != 0 { c15 } else { 0u16 })
}

/// A state is the XOR of its bits.
proof fn lemma_split_bits(x: u16)
    by (bit_vector)
    ensures
        x == (x & 0x0001u16) ^ (x & 0x0002u16) ^ (x & 0x0004u16) ^ (x & 0x0008u16) ^ (x & 0x0010u16) ^ (x & 0x0020u16) ^ (x & 0x0040u16) ^ (x & 0x0080u16) ^ (x & 0x0100u16) ^ (x & 0x0200u16) ^ (x & 0x0400u16) ^ (x & 0x0800u16) ^ (x & 0x1000u16) ^ (x & 0x2000u16) ^ (x & 0x4000u16) ^ (x & 0x8000u16),
        (x & 0x0001u16) == 0u16 || (x & 0x0001u16) == 0x0001u16,
        (x & 0x0002u16) == 0u16 || (x & 0x0002u16) == 0x0002u16,
        (x & 0x0004u16) == 0u16 || (x & 0x0004u16) == 0x0004u16,
        (x & 0x0008u16) == 0u16 || (x & 0x0008u16) == 0x0008u16,
        (x & 0x0010u16) == 0u16 || (x & 0x0010u16) == 0x0010u16,
        (x & 0x0020u16) == 0u16 || (x & 0x0020u16) == 0x0020u16,
        (x & 0x0040u16) == 0u16 || (x & 0x0040u16) == 0x0040u16,
        (x & 0x0080u16) == 0u16 || (x & 0x0080u16) == 0x0080u16,
        (x & 0x0100u16) == 0u16 || (x & 0x0100u16) == 0x0100u16,
        (x & 0x0200u16) == 0u16 || (x & 0x0200u16) == 0x0200u16,
        (x & 0x0400u16) == 0u16 || (x & 0x0400u16) == 0x0400u16,
        (x & 0x0800u16) == 0u16 || (x & 0x0800u16) == 0x0800u16,
        (x & 0x1000u16) == 0u16 || (x & 0x1000u16) == 0x1000u16,
        (x & 0x2000u16) == 0u16 || (x & 0x2000u16) == 0x2000u16,
        (x & 0x4000u16) == 0u16 || (x & 0x4000u16) == 0x4000u16,
        (x & 0x8000u16) == 0u16 || (x & 0x8000u16) == 0x8000u16,
{
}

/// Stepping `n` times is the linear map sending each bit to the state that
/// bit alone reaches in `n` steps.
proof fn lemma_iter_as_map(x: u16, n: nat)
    ensures
        lfsr_iter(x, n) == lin16(lfsr_iter(0x0001, n), lfsr_iter(0x0002, n), lfsr_iter(0x0004, n), lfsr_iter(0x0008, n), lfsr_iter(0x0010, n), lfsr_iter(0x0020, n), lfsr_iter(0x0040, n), lfsr_iter(0x0080, n), lfsr_iter(0x0100, n), lfsr_iter(0x0200, n), lfsr_iter(0x0400, n), lfsr_iter(0x0800, n), lfsr_iter(0x1000, n), lfsr_iter(0x2000, n), lfsr_iter(0x4000, n), lfsr_iter(0x8000, n), x),
{
    reveal(lin16);
    lemma_split_bits(x);
    lemma_iter_linear(0, 0, n);
    lemma_iter_linear((x & 0x0001u16), (x & 0x0002u16), n);
    lemma_iter_linear((x & 0x0001u16) ^ (x & 0x0002u16), (x & 0x0004u16), n);
    lemma_iter_linear((x & 0x0001u16) ^ (x & 0x0002u16) ^ (x & 0x0004u16), (x & 0x0008u16), n);
    lemma_iter_linear((x & 0x0001u16) ^ (x & 0x0002u16) ^ (x & 0x0004u16) ^ (x & 0x0008u16), (x & 0x0010u16), n);
    lemma_iter_linear((x & 0x0001u16) ^ (x & 0x0002u16) ^ (x & 0x0004u16) ^ (x & 0x0008u16) ^ (x & 0x0010u16), (x & 0x0020u16), n);
    lemma_iter_linear((x & 0x0001u16) ^ (x & 0x0002u16) ^ (x & 0x0004u16) ^ (x & 0x0008u16) ^ (x & 0x0010u16) ^ (x & 0x0020u16), (x & 0x0040u16), n);
    lemma_iter_linear((x & 0x0001u16) ^ (x & 0x0002u16) ^ (x & 0x0004u16) ^ (x & 0x0008u16) ^ (x & 0x0010u16) ^ (x & 0x0020u16) ^ (x & 0x0040u16), (x & 0x0080u16), n);
    lemma_iter_linear((x & 0x0001u16) ^ (x & 0x0002u16) ^ (x & 0x0004u16) ^ (x & 0x0008u16) ^ (x & 0x0010u16) ^ (x & 0x0020u16) ^ (x & 0x0040u16) ^ (x & 0x0080u16), (x & 0x0100u16), n);
    lemma_iter_linear((x & 0x0001u16) ^ (x & 0x0002u16) ^ (x & 0x0004u16) ^ (x & 0x0008u16) ^ (x & 0x0010u16) ^ (x & 0x0020u16) ^ (x & 0x0040u16) ^ (x & 0x0080u16) ^ (x & 0x0100u16), (x & 0x0200u16), n);
    lemma_iter_linear((x & 0x0001u16) ^ (x & 0x0002u16) ^ (x & 0x0004u16) ^ (x & 0x0008u16) ^ (x & 0x0010u16) ^ (x & 0x0020u16) ^ (x & 0x0040u16) ^ (x & 0x0080u16) ^ (x & 0x0100u16) ^ (x & 0x0200u16), (x & 0x0400u16), n);
    lemma_iter_linear((x & 0x0001u16) ^ (x & 0x0002u16) ^ (x & 0x0004u16) ^ (x & 0x0008u16) ^ (x & 0x0010u16) ^ (x & 0x0020u16) ^ (x & 0x0040u16) ^ (x & 0x0080u16) ^ (x & 0x0100u16) ^ (x & 0x0200u16) ^ (x & 0x0400u16), (x & 0x0800u16), n);
    lemma_iter_linear((x & 0x0001u16) ^ (x & 0x0002u16) ^ (x & 0x0004u16) ^ (x & 0x0008u16) ^ (x & 0x0010u16) ^ (x & 0x0020u16) ^ (x & 0x0040u16) ^ (x & 0x0080u16) ^ (x & 0x0100u16) ^ (x & 0x0200u16) ^ (x & 0x0400u16) ^ (x & 0x0800u16), (x & 0x1000u16), n);
    lemma_iter_linear((x & 0x0001u16) ^ (x & 0x0002u16) ^ (x & 0x0004u16) ^ (x & 0x0008u16) ^ (x & 0x0010u16) ^ (x & 0x0020u16) ^ (x & 0x0040u16) ^ (x & 0x0080u16) ^ (x & 0x0100u16) ^ (x & 0x0200u16) ^ (x & 0x0400u16) ^ (x & 0x0800u16) ^ (x & 0x1000u16), (x & 0x2000u16), n);
    lemma_iter_linear((x & 0x0001u16) ^ (x & 0x0002u16) ^ (x & 0x0004u16) ^ (x & 0x0008u16) ^ (x & 0x0010u16) ^ (x & 0x0020u16) ^ (x & 0x0040u16) ^ (x & 0x0080u16) ^ (x & 0x0100u16) ^ (x & 0x0200u16) ^ (x & 0x0400u16) ^ (x & 0x0800u16) ^ (x & 0x1000u16) ^ (x & 0x2000u16), (x & 0x4000u16), n);
    lemma_iter_linear((x & 0x0001u16) ^ (x & 0x0002u16) ^ (x & 0x0004u16) ^ (x & 0x0008u16) ^ (x & 0x0010u16) ^ (x & 0x0020u16) ^ (x & 0x0040u16) ^ (x & 0x0080u16) ^ (x & 0x0100u16) ^ (x & 0x0200u16) ^ (x & 0x0400u16) ^ (x & 0x0800u16) ^ (x & 0x1000u16) ^ (x & 0x2000u16) ^ (x & 0x4000u16), (x & 0x8000u16), n);
}

/// The register's transition taken 1 times, as a linear map.
#[verifier::opaque]
pub open spec fn step_pow0(x: u16) -> u16 {
    lin16(0x8000, 0x0001, 0x8002, 0x8004, 0x0008, 0x8010, 0x0020, 0x0040, 0x0080, 0x0100, 0x0200, 0x0400, 0x0800, 0x1000, 0x2000, 0x4000, x)
}

/// The register's transition taken 2 times, as a linear map.
#[verifier::opaque]
pub open spec fn step_pow1(x: u16) -> u16 {
    lin16(0x4000, 0x8000, 0x4001, 0xc002, 0x8004, 0x4008, 0x8010, 0x0020, 0x0040, 0x0080, 0x0100, 0x0200, 0x0400, 0x0800, 0x1000, 0x2000, x)
}

/// The register's transition taken 4 times, as a linear map.
#[verifier::opaque]
pub open spec fn step_pow2(x: u16) -> u16 {
    lin16(0x1000, 0x2000, 0x5000, 0xb000, 0x6001, 0xd002, 0xa004, 0x4008, 0x8010, 0x0020, 0x0040, 0x0080, 0x0100, 0x0200, 0x0400, 0x0800, x)
}

/// The register's transition taken 8 times, as a linear map.
#[verifier::opaque]
pub open spec fn step_pow3(x: u16) -> u16 {
    lin16(0x0100, 0x0200, 0x0500, 0x0b00, 0x1600, 0x2d00, 0x5a00, 0xb400, 0x6801, 0xd002, 0xa004, 0x4008, 0x8010, 0x0020, 0x0040, 0x0080, x)
}

/// The register's transition taken 16 times, as a linear map.
#[verifier::opaque]
pub open spec fn step_pow4(x: u16) -> u16 {
    lin16(0x6801, 0xd002, 0xc805, 0xf80b, 0xf016, 0x882d, 0x105a, 0x20b4, 0x4168, 0x82d0, 0x05a0, 0x0b40, 0x1680, 0x2d00, 0x5a00, 0xb400, x)
}

/// The register's transition taken 32 times, as a linear map.
#[verifier::opaque]
pub open spec fn step_pow5(x: u16) -> u16 {
    lin16(0x1441, 0x2882, 0x4544, 0x9ec8, 0x3d91, 0x6f62, 0xdec5, 0xbd8a, 0x7b14, 0xf628, 0xec51, 0xd8a2, 0xb144, 0x6288, 0xc510, 0x8a20, x)
}

/// The register's transition taken 64 times, as a linear map.
#[verifier::opaque]
pub open spec fn step_pow6(x: u16) -> u16 {
    lin16(0x9791, 0x2f22, 0xc9d4, 0x0438, 0x0871, 0x8772, 0x0ee5, 0x1dcb, 0x3b97, 0x772f, 0xee5e, 0xdcbc, 0xb979, 0x72f2, 0xe5e4, 0xcbc8, x)
}

/// The register's transition taken 128 times, as a linear map.
#[verifier::opaque]
pub open spec fn step_pow7(x: u16) -> u16 {
    lin16(0x527c, 0xa4f8, 0x1b8c, 0x6565, 0xcacb, 0xc7ea, 0x8fd4, 0x1fa9, 0x3f52, 0x7ea4, 0xfd49, 0xfa93, 0xf527, 0xea4f, 0xd49f, 0xa93e, x)
}

/// The register's transition taken 256 times, as a linear map.
#[verifier::opaque]
pub open spec fn step_pow8(x: u16) -> u16 {
    lin16(0xa300, 0x4601, 0x2f02, 0xfd05, 0xfa0a, 0x5714, 0xae28, 0x5c51, 0xb8a3, 0x7146, 0xe28c, 0xc518, 0x8a30, 0x1460, 0x28c0, 0x5180, x)
}

/// The register's transition taken 512 times, as a linear map.
#[verifier::opaque]
pub open spec fn step_pow9(x: u16) -> u16 {
    lin16(0x8c05, 0x180a, 0xbc10, 0xf425, 0xe84a, 0x5c91, 0xb923, 0x7246, 0xe48c, 0xc918, 0x9230, 0x2460, 0x48c0, 0x9180, 0x2301, 0x4602, x)
}

/// The register's transition taken 1024 times, as a linear map.
#[verifier::opaque]
pub open spec fn step_pow10(x: u16) -> u16 {
    lin16(0xc047, 0x808f, 0xc158, 0x42f7, 0x85ef, 0xcb98, 0x9730, 0x2e60, 0x5cc0, 0xb980, 0x7301, 0xe602, 0xcc04, 0x9808, 0x3011, 0x6023, x)
}

/// The register's transition taken 2048 times, as a linear map.
#[verifier::opaque]
pub open spec fn step_pow11(x: u16) -> u16 {
    lin16(0x4692, 0x8d24, 0x5cda, 0xff26, 0xfe4d, 0xba08, 0x7411, 0xe823, 0xd046, 0xa08d, 0x411a, 0x8234, 0x0469, 0x08d2, 0x11a4, 0x2349, x)
}

/// The register's transition taken 4096 times, as a linear map.
#[verifier::opaque]
pub open spec fn step_pow12(x: u16) -> u16 {
    lin16(0x6b79, 0xd6f3, 0xc69e, 0xe645, 0xcc8a, 0xf26d, 0xe4da, 0xc9b5, 0x936b, 0x26d6, 0x4dad, 0x9b5b, 0x36b7, 0x6d6f, 0xdade, 0xb5bc, x)
}

/// The register's transition taken 8192 times, as a linear map.
#[verifier::opaque]
pub open spec fn step_pow13(x: u16) -> u16 {
    lin16(0xce56, 0x9cac, 0xf70e, 0x204b, 0x4097, 0x4f79, 0x9ef3, 0x3de7, 0x7bce, 0xf79c, 0xef39, 0xde72, 0xbce5, 0x79ca, 0xf395, 0xe72b, x)
}

/// The register's transition taken 16384 times, as a linear map.
#[verifier::opaque]
pub open spec fn step_pow14(x: u16) -> u16 {
    lin16(0x67af, 0xcf5e, 0xf913, 0x9588, 0x2b11, 0x318c, 0x6319, 0xc633, 0x8c67, 0x18cf, 0x319e, 0x633d, 0xc67a, 0x8cf5, 0x19eb, 0x33d7, x)
}

/// The register's transition taken 32768 times, as a linear map.
#[verifier::opaque]
pub open spec fn step_pow15(x: u16) -> u16 {
    lin16(0x03fd, 0x07fa, 0x0c09, 0x1bef, 0x37de, 0x6c40, 0xd880, 0xb101, 0x6203, 0xc407, 0x880f, 0x101f, 0x203f, 0x407f, 0x80ff, 0x01fe, x)
}

/// Each power applied to the bits' images of the power before it (and one step applied to each bit), evaluated.
proof fn lemma_table_squares()
    by (bit_vector)
    ensures
        lfsr_step(0x0001) == 0x8000,
        lfsr_step(0x0002) == 0x0001,
        lfsr_step(0x0004) == 0x8002,
        lfsr_step(0x0008) == 0x8004,
        lfsr_step(0x0010) == 0x0008,
        lfsr_step(0x0020) == 0x8010,
        lfsr_step(0x0040) == 0x0020,
        lfsr_step(0x0080) == 0x0040,
        lfsr_step(0x0100) == 0x0080,
        lfsr_step(0x0200) == 0x0100,
        lfsr_step(0x0400) == 0x0200,
        lfsr_step(0x0800) == 0x0400,
        lfsr_step(0x1000) == 0x0800,
        lfsr_step(0x2000) == 0x1000,
        lfsr_step(0x4000) == 0x2000,
        lfsr_step(0x8000) == 0x4000,
        step_pow0(0x8000) == 0x4000,
        step_pow0(0x0001) == 0x8000,
        step_pow0(0x8002) == 0x4001,
        step_pow0(0x8004) == 0xc002,
        step_pow0(0x0008) == 0x8004,
        step_pow0(0x8010) == 0x4008,
        step_pow0(0x0020) == 0x8010,
        step_pow0(0x0040) == 0x0020,
        step_pow0(0x0080) == 0x0040,
        step_pow0(0x0100) == 0x0080,
        step_pow0(0x0200) == 0x0100,
        step_pow0(0x0400) == 0x0200,
        step_pow0(0x0800) == 0x0400,
        step_pow0(0x1000) == 0x0800,
        step_pow0(0x2000) == 0x1000,
        step_pow0(0x4000) == 0x2000,
        step_pow1(0x4000) == 0x1000,
        step_pow1(0x8000) == 0x2000,
        step_pow1(0x4001) == 0x5000,
        step_pow1(0xc002) == 0xb000,
        step_pow1(0x8004) == 0x6001,
        step_pow1(0x4008) == 0xd002,
        step_pow1(0x8010) == 0xa004,
        step_pow1(0x0020) == 0x4008,
        step_pow1(0x0040) == 0x8010,
        step_pow1(0x0080) == 0x0020,
        step_pow1(0x0100) == 0x0040,
        step_pow1(0x0200) == 0x0080,
        step_pow1(0x0400) == 0x0100,
        step_pow1(0x0800) == 0x0200,
        step_pow1(0x1000) == 0x0400,
        step_pow1(0x2000) == 0x0800,
        step_pow2(0x1000) == 0x0100,
        step_pow2(0x2000) == 0x0200,
        step_pow2(0x5000) == 0x0500,
        step_pow2(0xb000) == 0x0b00,
        step_pow2(0x6001) == 0x1600,
        step_pow2(0xd002) == 0x2d00,
        step_pow2(0xa004) == 0x5a00,
        step_pow2(0x4008) == 0xb400,
        step_pow2(0x8010) == 0x6801,
        step_pow2(0x0020) == 0xd002,
        step_pow2(0x0040) == 0xa004,
        step_pow2(0x0080) == 0x4008,
        step_pow2(0x0100) == 0x8010,
        step_pow2(0x0200) == 0x0020,
        step_pow2(0x0400) == 0x0040,
        step_pow2(0x0800) == 0x0080,
        step_pow3(0x0100) == 0x6801,
        step_pow3(0x0200) == 0xd002,
        step_pow3(0x0500) == 0xc805,
        step_pow3(0x0b00) == 0xf80b,
        step_pow3(0x1600) == 0xf016,
        step_pow3(0x2d00) == 0x882d,
        step_pow3(0x5a00) == 0x105a,
        step_pow3(0xb400) == 0x20b4,
        step_pow3(0x6801) == 0x4168,
        step_pow3(0xd002) == 0x82d0,
        step_pow3(0xa004) == 0x05a0,
        step_pow3(0x4008) == 0x0b40,
        step_pow3(0x8010) == 0x1680,
        step_pow3(0x0020) == 0x2d00,
        step_pow3(0x0040) == 0x5a00,
        step_pow3(0x0080) == 0xb400,
        step_pow4(0x6801) == 0x1441,
        step_pow4(0xd002) == 0x2882,
        step_pow4(0xc805) == 0x4544,
        step_pow4(0xf80b) == 0x9ec8,
        step_pow4(0xf016) == 0x3d91,
        step_pow4(0x882d) == 0x6f62,
        step_pow4(0x105a) == 0xdec5,
        step_pow4(0x20b4) == 0xbd8a,
        step_pow4(0x4168) == 0x7b14,
        step_pow4(0x82d0) == 0xf628,
        step_pow4(0x05a0) == 0xec51,
        step_pow4(0x0b40) == 0xd8a2,
        step_pow4(0x1680) == 0xb144,
        step_pow4(0x2d00) == 0x6288,
        step_pow4(0x5a00) == 0xc510,
        step_pow4(0xb400) == 0x8a20,
        step_pow5(0x1441) == 0x9791,
        step_pow5(0x2882) == 0x2f22,
        step_pow5(0x4544) == 0xc9d4,
        step_pow5(0x9ec8) == 0x0438,
        step_pow5(0x3d91) == 0x0871,
        step_pow5(0x6f62) == 0x8772,
        step_pow5(0xdec5) == 0x0ee5,
        step_pow5(0xbd8a) == 0x1dcb,
        step_pow5(0x7b14) == 0x3b97,
        step_pow5(0xf628) == 0x772f,
        step_pow5(0xec51) == 0xee5e,
        step_pow5(0xd8a2) == 0xdcbc,
        step_pow5(0xb144) == 0xb979,
        step_pow5(0x6288) == 0x72f2,
        step_pow5(0xc510) == 0xe5e4,
        step_pow5(0x8a20) == 0xcbc8,
        step_pow6(0x9791) == 0x527c,
        step_pow6(0x2f22) == 0xa4f8,
        step_pow6(0xc9d4) == 0x1b8c,
        step_pow6(0x0438) == 0x6565,
        step_pow6(0x0871) == 0xcacb,
        step_pow6(0x8772) == 0xc7ea,
        step_pow6(0x0ee5) == 0x8fd4,
        step_pow6(0x1dcb) == 0x1fa9,
        step_pow6(0x3b97) == 0x3f52,
        step_pow6(0x772f) == 0x7ea4,
        step_pow6(0xee5e) == 0xfd49,
        step_pow6(0xdcbc) == 0xfa93,
        step_pow6(0xb979) == 0xf527,
        step_pow6(0x72f2) == 0xea4f,
        step_pow6(0xe5e4) == 0xd49f,
        step_pow6(0xcbc8) == 0xa93e,
        step_pow7(0x527c) == 0xa300,
        step_pow7(0xa4f8) == 0x4601,
        step_pow7(0x1b8c) == 0x2f02,
        step_pow7(0x6565) == 0xfd05,
        step_pow7(0xcacb) == 0xfa0a,
        step_pow7(0xc7ea) == 0x5714,
        step_pow7(0x8fd4) == 0xae28,
        step_pow7(0x1fa9) == 0x5c51,
        step_pow7(0x3f52) == 0xb8a3,
        step_pow7(0x7ea4) == 0x7146,
        step_pow7(0xfd49) == 0xe28c,
        step_pow7(0xfa93) == 0xc518,
        step_pow7(0xf527) == 0x8a30,
        step_pow7(0xea4f) == 0x1460,
        step_pow7(0xd49f) == 0x28c0,
        step_pow7(0xa93e) == 0x5180,
        step_pow8(0xa300) == 0x8c05,
        step_pow8(0x4601) == 0x180a,
        step_pow8(0x2f02) == 0xbc10,
        step_pow8(0xfd05) == 0xf425,
        step_pow8(0xfa0a) == 0xe84a,
        step_pow8(0x5714) == 0x5c91,
        step_pow8(0xae28) == 0xb923,
        step_pow8(0x5c51) == 0x7246,
        step_pow8(0xb8a3) == 0xe48c,
        step_pow8(0x7146) == 0xc918,
        step_pow8(0xe28c) == 0x9230,
        step_pow8(0xc518) == 0x2460,
        step_pow8(0x8a30) == 0x48c0,
        step_pow8(0x1460) == 0x9180,
        step_pow8(0x28c0) == 0x2301,
        step_pow8(0x5180) == 0x4602,
        step_pow9(0x8c05) == 0xc047,
        step_pow9(0x180a) == 0x808f,
        step_pow9(0xbc10) == 0xc158,
        step_pow9(0xf425) == 0x42f7,
        step_pow9(0xe84a) == 0x85ef,
        step_pow9(0x5c91) == 0xcb98,
        step_pow9(0xb923) == 0x9730,
        step_pow9(0x7246) == 0x2e60,
        step_pow9(0xe48c) == 0x5cc0,
        step_pow9(0xc918) == 0xb980,
        step_pow9(0x9230) == 0x7301,
        step_pow9(0x2460) == 0xe602,
        step_pow9(0x48c0) == 0xcc04,
        step_pow9(0x9180) == 0x9808,
        step_pow9(0x2301) == 0x3011,
        step_pow9(0x4602) == 0x6023,
        step_pow10(0xc047) == 0x4692,
        step_pow10(0x808f) == 0x8d24,
        step_pow10(0xc158) == 0x5cda,
        step_pow10(0x42f7) == 0xff26,
        step_pow10(0x85ef) == 0xfe4d,
        step_pow10(0xcb98) == 0xba08,
        step_pow10(0x9730) == 0x7411,
        step_pow10(0x2e60) == 0xe823,
        step_pow10(0x5cc0) == 0xd046,
        step_pow10(0xb980) == 0xa08d,
        step_pow10(0x7301) == 0x411a,
        step_pow10(0xe602) == 0x8234,
        step_pow10(0xcc04) == 0x0469,
        step_pow10(0x9808) == 0x08d2,
        step_pow10(0x3011) == 0x11a4,
        step_pow10(0x6023) == 0x2349,
        step_pow11(0x4692) == 0x6b79,
        step_pow11(0x8d24) == 0xd6f3,
        step_pow11(0x5cda) == 0xc69e,
        step_pow11(0xff26) == 0xe645,
        step_pow11(0xfe4d) == 0xcc8a,
        step_pow11(0xba08) == 0xf26d,
        step_pow11(0x7411) == 0xe4da,
        step_pow11(0xe823) == 0xc9b5,
        step_pow11(0xd046) == 0x936b,
        step_pow11(0xa08d) == 0x26d6,
        step_pow11(0x411a) == 0x4dad,
        step_pow11(0x8234) == 0x9b5b,
        step_pow11(0x0469) == 0x36b7,
        step_pow11(0x08d2) == 0x6d6f,
        step_pow11(0x11a4) == 0xdade,
        step_pow11(0x2349) == 0xb5bc,
        step_pow12(0x6b79) == 0xce56,
        step_pow12(0xd6f3) == 0x9cac,
        step_pow12(0xc69e) == 0xf70e,
        step_pow12(0xe645) == 0x204b,
        step_pow12(0xcc8a) == 0x4097,
        step_pow12(0xf26d) == 0x4f79,
        step_pow12(0xe4da) == 0x9ef3,
        step_pow12(0xc9b5) == 0x3de7,
        step_pow12(0x936b) == 0x7bce,
        step_pow12(0x26d6) == 0xf79c,
        step_pow12(0x4dad) == 0xef39,
        step_pow12(0x9b5b) == 0xde72,
        step_pow12(0x36b7) == 0xbce5,
        step_pow12(0x6d6f) == 0x79ca,
        step_pow12(0xdade) == 0xf395,
        step_pow12(0xb5bc) == 0xe72b,
        step_pow13(0xce56) == 0x67af,
        step_pow13(0x9cac) == 0xcf5e,
        step_pow13(0xf70e) == 0xf913,
        step_pow13(0x204b) == 0x9588,
        step_pow13(0x4097) == 0x2b11,
        step_pow13(0x4f79) == 0x318c,
        step_pow13(0x9ef3) == 0x6319,
        step_pow13(0x3de7) == 0xc633,
        step_pow13(0x7bce) == 0x8c67,
        step_pow13(0xf79c) == 0x18cf,
        step_pow13(0xef39) == 0x319e,
        step_pow13(0xde72) == 0x633d,
        step_pow13(0xbce5) == 0xc67a,
        step_pow13(0x79ca) == 0x8cf5,
        step_pow13(0xf395) == 0x19eb,
        step_pow13(0xe72b) == 0x33d7,
        step_pow14(0x67af) == 0x03fd,
        step_pow14(0xcf5e) == 0x07fa,
        step_pow14(0xf913) == 0x0c09,
        step_pow14(0x9588) == 0x1bef,
        step_pow14(0x2b11) == 0x37de,
        step_pow14(0x318c) == 0x6c40,
        step_pow14(0x6319) == 0xd880,
        step_pow14(0xc633) == 0xb101,
        step_pow14(0x8c67) == 0x6203,
        step_pow14(0x18cf) == 0xc407,
        step_pow14(0x319e) == 0x880f,
        step_pow14(0x633d) == 0x101f,
        step_pow14(0xc67a) == 0x203f,
        step_pow14(0x8cf5) == 0x407f,
        step_pow14(0x19eb) == 0x80ff,
        step_pow14(0x33d7) == 0x01fe,
{
}

/// The bits' orbits along 1, 3, 7, ... 65535 steps, evaluated.
proof fn lemma_table_full()
    by (bit_vector)
    ensures
        step_pow1(0x8000) == 0x2000,
        step_pow1(0x0001) == 0x4000,
        step_pow1(0x8002) == 0xa000,
        step_pow1(0x8004) == 0x6001,
        step_pow1(0x0008) == 0xc002,
        step_pow1(0x8010) == 0xa004,
        step_pow1(0x0020) == 0x4008,
        step_pow1(0x0040) == 0x8010,
        step_pow1(0x0080) == 0x0020,
        step_pow1(0x0100) == 0x0040,
        step_pow1(0x0200) == 0x0080,
        step_pow1(0x0400) == 0x0100,
        step_pow1(0x0800) == 0x0200,
        step_pow1(0x1000) == 0x0400,
        step_pow1(0x2000) == 0x0800,
        step_pow1(0x4000) == 0x1000,
        step_pow2(0x2000) == 0x0200,
        step_pow2(0x4000) == 0x0400,
        step_pow2(0xa000) == 0x0a00,
        step_pow2(0x6001) == 0x1600,
        step_pow2(0xc002) == 0x2c00,
        step_pow2(0xa004) == 0x5a00,
        step_pow2(0x4008) == 0xb400,
        step_pow2(0x8010) == 0x6801,
        step_pow2(0x0020) == 0xd002,
        step_pow2(0x0040) == 0xa004,
        step_pow2(0x0080) == 0x4008,
        step_pow2(0x0100) == 0x8010,
        step_pow2(0x0200) == 0x0020,
        step_pow2(0x0400) == 0x0040,
        step_pow2(0x0800) == 0x0080,
        step_pow2(0x1000) == 0x0100,
        step_pow3(0x0200) == 0xd002,
        step_pow3(0x0400) == 0xa004,
        step_pow3(0x0a00) == 0x900a,
        step_pow3(0x1600) == 0xf016,
        step_pow3(0x2c00) == 0xe02c,
        step_pow3(0x5a00) == 0x105a,
        step_pow3(0xb400) == 0x20b4,
        step_pow3(0x6801) == 0x4168,
        step_pow3(0xd002) == 0x82d0,
        step_pow3(0xa004) == 0x05a0,
        step_pow3(0x4008) == 0x0b40,
        step_pow3(0x8010) == 0x1680,
        step_pow3(0x0020) == 0x2d00,
        step_pow3(0x0040) == 0x5a00,
        step_pow3(0x0080) == 0xb400,
        step_pow3(0x0100) == 0x6801,
        step_pow4(0xd002) == 0x2882,
        step_pow4(0xa004) == 0x5105,
        step_pow4(0x900a) == 0x8a89,
        step_pow4(0xf016) == 0x3d91,
        step_pow4(0xe02c) == 0x7b23,
        step_pow4(0x105a) == 0xdec5,
        step_pow4(0x20b4) == 0xbd8a,
        step_pow4(0x4168) == 0x7b14,
        step_pow4(0x82d0) == 0xf628,
        step_pow4(0x05a0) == 0xec51,
        step_pow4(0x0b40) == 0xd8a2,
        step_pow4(0x1680) == 0xb144,
        step_pow4(0x2d00) == 0x6288,
        step_pow4(0x5a00) == 0xc510,
        step_pow4(0xb400) == 0x8a20,
        step_pow4(0x6801) == 0x1441,
        step_pow5(0x2882) == 0x2f22,
        step_pow5(0x5105) == 0x5e45,
        step_pow5(0x8a89) == 0x93a9,
        step_pow5(0x3d91) == 0x0871,
        step_pow5(0x7b23) == 0x10e3,
        step_pow5(0xdec5) == 0x0ee5,
        step_pow5(0xbd8a) == 0x1dcb,
        step_pow5(0x7b14) == 0x3b97,
        step_pow5(0xf628) == 0x772f,
        step_pow5(0xec51) == 0xee5e,
        step_pow5(0xd8a2) == 0xdcbc,
        step_pow5(0xb144) == 0xb979,
        step_pow5(0x6288) == 0x72f2,
        step_pow5(0xc510) == 0xe5e4,
        step_pow5(0x8a20) == 0xcbc8,
        step_pow5(0x1441) == 0x9791,
        step_pow6(0x2f22) == 0xa4f8,
        step_pow6(0x5e45) == 0x49f0,
        step_pow6(0x93a9) == 0x3719,
        step_pow6(0x0871) == 0xcacb,
        step_pow6(0x10e3) == 0x9596,
        step_pow6(0x0ee5) == 0x8fd4,
        step_pow6(0x1dcb) == 0x1fa9,
        step_pow6(0x3b97) == 0x3f52,
        step_pow6(0x772f) == 0x7ea4,
        step_pow6(0xee5e) == 0xfd49,
        step_pow6(0xdcbc) == 0xfa93,
        step_pow6(0xb979) == 0xf527,
        step_pow6(0x72f2) == 0xea4f,
        step_pow6(0xe5e4) == 0xd49f,
        step_pow6(0xcbc8) == 0xa93e,
        step_pow6(0x9791) == 0x527c,
        step_pow7(0xa4f8) == 0x4601,
        step_pow7(0x49f0) == 0x8c02,
        step_pow7(0x3719) == 0x5e05,
        step_pow7(0xcacb) == 0xfa0a,
        step_pow7(0x9596) == 0xf414,
        step_pow7(0x8fd4) == 0xae28,
        step_pow7(0x1fa9) == 0x5c51,
        step_pow7(0x3f52) == 0xb8a3,
        step_pow7(0x7ea4) == 0x7146,
        step_pow7(0xfd49) == 0xe28c,
        step_pow7(0xfa93) == 0xc518,
        step_pow7(0xf527) == 0x8a30,
        step_pow7(0xea4f) == 0x1460,
        step_pow7(0xd49f) == 0x28c0,
        step_pow7(0xa93e) == 0x5180,
        step_pow7(0x527c) == 0xa300,
        step_pow8(0x4601) == 0x180a,
        step_pow8(0x8c02) == 0x3015,
        step_pow8(0x5e05) == 0x7820,
        step_pow8(0xfa0a) == 0xe84a,
        step_pow8(0xf414) == 0xd094,
        step_pow8(0xae28) == 0xb923,
        step_pow8(0x5c51) == 0x7246,
        step_pow8(0xb8a3) == 0xe48c,
        step_pow8(0x7146) == 0xc918,
        step_pow8(0xe28c) == 0x9230,
        step_pow8(0xc518) == 0x2460,
        step_pow8(0x8a30) == 0x48c0,
        step_pow8(0x1460) == 0x9180,
        step_pow8(0x28c0) == 0x2301,
        step_pow8(0x5180) == 0x4602,
        step_pow8(0xa300) == 0x8c05,
        step_pow9(0x180a) == 0x808f,
        step_pow9(0x3015) == 0x011f,
        step_pow9(0x7820) == 0x82b0,
        step_pow9(0xe84a) == 0x85ef,
        step_pow9(0xd094) == 0x0bdf,
        step_pow9(0xb923) == 0x9730,
        step_pow9(0x7246) == 0x2e60,
        step_pow9(0xe48c) == 0x5cc0,
        step_pow9(0xc918) == 0xb980,
        step_pow9(0x9230) == 0x7301,
        step_pow9(0x2460) == 0xe602,
        step_pow9(0x48c0) == 0xcc04,
        step_pow9(0x9180) == 0x9808,
        step_pow9(0x2301) == 0x3011,
        step_pow9(0x4602) == 0x6023,
        step_pow9(0x8c05) == 0xc047,
        step_pow10(0x808f) == 0x8d24,
        step_pow10(0x011f) == 0x1a48,
        step_pow10(0x82b0) == 0xb9b4,
        step_pow10(0x85ef) == 0xfe4d,
        step_pow10(0x0bdf) == 0xfc9a,
        step_pow10(0x9730) == 0x7411,
        step_pow10(0x2e60) == 0xe823,
        step_pow10(0x5cc0) == 0xd046,
        step_pow10(0xb980) == 0xa08d,
        step_pow10(0x7301) == 0x411a,
        step_pow10(0xe602) == 0x8234,
        step_pow10(0xcc04) == 0x0469,
        step_pow10(0x9808) == 0x08d2,
        step_pow10(0x3011) == 0x11a4,
        step_pow10(0x6023) == 0x2349,
        step_pow10(0xc047) == 0x4692,
        step_pow11(0x8d24) == 0xd6f3,
        step_pow11(0x1a48) == 0xade7,
        step_pow11(0xb9b4) == 0x8d3c,
        step_pow11(0xfe4d) == 0xcc8a,
        step_pow11(0xfc9a) == 0x9914,
        step_pow11(0x7411) == 0xe4da,
        step_pow11(0xe823) == 0xc9b5,
        step_pow11(0xd046) == 0x936b,
        step_pow11(0xa08d) == 0x26d6,
        step_pow11(0x411a) == 0x4dad,
        step_pow11(0x8234) == 0x9b5b,
        step_pow11(0x0469) == 0x36b7,
        step_pow11(0x08d2) == 0x6d6f,
        step_pow11(0x11a4) == 0xdade,
        step_pow11(0x2349) == 0xb5bc,
        step_pow11(0x4692) == 0x6b79,
        step_pow12(0xd6f3) == 0x9cac,
        step_pow12(0xade7) == 0x3958,
        step_pow12(0x8d3c) == 0xee1d,
        step_pow12(0xcc8a) == 0x4097,
        step_pow12(0x9914) == 0x812f,
        step_pow12(0xe4da) == 0x9ef3,
        step_pow12(0xc9b5) == 0x3de7,
        step_pow12(0x936b) == 0x7bce,
        step_pow12(0x26d6) == 0xf79c,
        step_pow12(0x4dad) == 0xef39,
        step_pow12(0x9b5b) == 0xde72,
        step_pow12(0x36b7) == 0xbce5,
        step_pow12(0x6d6f) == 0x79ca,
        step_pow12(0xdade) == 0xf395,
        step_pow12(0xb5bc) == 0xe72b,
        step_pow12(0x6b79) == 0xce56,
        step_pow13(0x9cac) == 0xcf5e,
        step_pow13(0x3958) == 0x9ebc,
        step_pow13(0xee1d) == 0xf227,
        step_pow13(0x4097) == 0x2b11,
        step_pow13(0x812f) == 0x5623,
        step_pow13(0x9ef3) == 0x6319,
        step_pow13(0x3de7) == 0xc633,
        step_pow13(0x7bce) == 0x8c67,
        step_pow13(0xf79c) == 0x18cf,
        step_pow13(0xef39) == 0x319e,
        step_pow13(0xde72) == 0x633d,
        step_pow13(0xbce5) == 0xc67a,
        step_pow13(0x79ca) == 0x8cf5,
        step_pow13(0xf395) == 0x19eb,
        step_pow13(0xe72b) == 0x33d7,
        step_pow13(0xce56) == 0x67af,
        step_pow14(0xcf5e) == 0x07fa,
        step_pow14(0x9ebc) == 0x0ff4,
        step_pow14(0xf227) == 0x1812,
        step_pow14(0x2b11) == 0x37de,
        step_pow14(0x5623) == 0x6fbd,
        step_pow14(0x6319) == 0xd880,
        step_pow14(0xc633) == 0xb101,
        step_pow14(0x8c67) == 0x6203,
        step_pow14(0x18cf) == 0xc407,
        step_pow14(0x319e) == 0x880f,
        step_pow14(0x633d) == 0x101f,
        step_pow14(0xc67a) == 0x203f,
        step_pow14(0x8cf5) == 0x407f,
        step_pow14(0x19eb) == 0x80ff,
        step_pow14(0x33d7) == 0x01fe,
        step_pow14(0x67af) == 0x03fd,
        step_pow15(0x07fa) == 0x0001,
        step_pow15(0x0ff4) == 0x0002,
        step_pow15(0x1812) == 0x0004,
        step_pow15(0x37de) == 0x0008,
        step_pow15(0x6fbd) == 0x0010,
        step_pow15(0xd880) == 0x0020,
        step_pow15(0xb101) == 0x0040,
        step_pow15(0x6203) == 0x0080,
        step_pow15(0xc407) == 0x0100,
        step_pow15(0x880f) == 0x0200,
        step_pow15(0x101f) == 0x0400,
        step_pow15(0x203f) == 0x0800,
        step_pow15(0x407f) == 0x1000,
        step_pow15(0x80ff) == 0x2000,
        step_pow15(0x01fe) == 0x4000,
        step_pow15(0x03fd) == 0x8000,
{
}

/// The bits' orbits along 1, 5, 21, ... 21845 steps, evaluated.
proof fn lemma_table_21845()
    by (bit_vector)
    ensures
        step_pow2(0x8000) == 0x0800,
        step_pow2(0x0001) == 0x1000,
        step_pow2(0x8002) == 0x2800,
        step_pow2(0x8004) == 0x5800,
        step_pow2(0x0008) == 0xb000,
        step_pow2(0x8010) == 0x6801,
        step_pow2(0x0020) == 0xd002,
        step_pow2(0x0040) == 0xa004,
        step_pow2(0x0080) == 0x4008,
        step_pow2(0x0100) == 0x8010,
        step_pow2(0x0200) == 0x0020,
        step_pow2(0x0400) == 0x0040,
        step_pow2(0x0800) == 0x0080,
        step_pow2(0x1000) == 0x0100,
        step_pow2(0x2000) == 0x0200,
        step_pow2(0x4000) == 0x0400,
        step_pow4(0x0800) == 0x0b40,
        step_pow4(0x1000) == 0x1680,
        step_pow4(0x2800) == 0x2640,
        step_pow4(0x5800) == 0x47c0,
        step_pow4(0xb000) == 0x8f80,
        step_pow4(0x6801) == 0x1441,
        step_pow4(0xd002) == 0x2882,
        step_pow4(0xa004) == 0x5105,
        step_pow4(0x4008) == 0xa20b,
        step_pow4(0x8010) == 0x4416,
        step_pow4(0x0020) == 0x882d,
        step_pow4(0x0040) == 0x105a,
        step_pow4(0x0080) == 0x20b4,
        step_pow4(0x0100) == 0x4168,
        step_pow4(0x0200) == 0x82d0,
        step_pow4(0x0400) == 0x05a0,
        step_pow6(0x0b40) == 0x9ee1,
        step_pow6(0x1680) == 0x3dc3,
        step_pow6(0x2640) == 0xe566,
        step_pow6(0x47c0) == 0x542c,
        step_pow6(0x8f80) == 0xa859,
        step_pow6(0x1441) == 0xce53,
        step_pow6(0x2882) == 0x9ca7,
        step_pow6(0x5105) == 0x394f,
        step_pow6(0xa20b) == 0x729e,
        step_pow6(0x4416) == 0xe53d,
        step_pow6(0x882d) == 0xca7b,
        step_pow6(0x105a) == 0x94f7,
        step_pow6(0x20b4) == 0x29ee,
        step_pow6(0x4168) == 0x53dc,
        step_pow6(0x82d0) == 0xa7b8,
        step_pow6(0x05a0) == 0x4f70,
        step_pow8(0x9ee1) == 0x8b0f,
        step_pow8(0x3dc3) == 0x161f,
        step_pow8(0xe566) == 0xa730,
        step_pow8(0x542c) == 0xc56f,
        step_pow8(0xa859) == 0x8adf,
        step_pow8(0xce53) == 0x9eb1,
        step_pow8(0x9ca7) == 0x3d62,
        step_pow8(0x394f) == 0x7ac5,
        step_pow8(0x729e) == 0xf58b,
        step_pow8(0xe53d) == 0xeb16,
        step_pow8(0xca7b) == 0xd62c,
        step_pow8(0x94f7) == 0xac58,
        step_pow8(0x29ee) == 0x58b0,
        step_pow8(0x53dc) == 0xb161,
        step_pow8(0xa7b8) == 0x62c3,
        step_pow8(0x4f70) == 0xc587,
        step_pow10(0x8b0f) == 0xa006,
        step_pow10(0x161f) == 0x400d,
        step_pow10(0xa730) == 0x201d,
        step_pow10(0xc56f) == 0xe03c,
        step_pow10(0x8adf) == 0xc079,
        step_pow10(0x9eb1) == 0x20f4,
        step_pow10(0x3d62) == 0x41e8,
        step_pow10(0x7ac5) == 0x83d0,
        step_pow10(0xf58b) == 0x07a0,
        step_pow10(0xeb16) == 0x0f40,
        step_pow10(0xd62c) == 0x1e80,
        step_pow10(0xac58) == 0x3d00,
        step_pow10(0x58b0) == 0x7a00,
        step_pow10(0xb161) == 0xf400,
        step_pow10(0x62c3) == 0xe801,
        step_pow10(0xc587) == 0xd003,
        step_pow12(0xa006) == 0xc8be,
        step_pow12(0x400d) == 0x917c,
        step_pow12(0x201d) == 0xea47,
        step_pow12(0xe03c) == 0x1c31,
        step_pow12(0xc079) == 0x3863,
        step_pow12(0x20f4) == 0xb879,
        step_pow12(0x41e8) == 0x70f2,
        step_pow12(0x83d0) == 0xe1e4,
        step_pow12(0x07a0) == 0xc3c8,
        step_pow12(0x0f40) == 0x8791,
        step_pow12(0x1e80) == 0x0f22,
        step_pow12(0x3d00) == 0x1e45,
        step_pow12(0x7a00) == 0x3c8b,
        step_pow12(0xf400) == 0x7917,
        step_pow12(0xe801) == 0xf22f,
        step_pow12(0xd003) == 0xe45f,
        step_pow14(0xc8be) == 0x366a,
        step_pow14(0x917c) == 0x6cd5,
        step_pow14(0xea47) == 0xefc0,
        step_pow14(0x1c31) == 0xe9eb,
        step_pow14(0x3863) == 0xd3d6,
        step_pow14(0xb879) == 0x91c6,
        step_pow14(0x70f2) == 0x238d,
        step_pow14(0xe1e4) == 0x471b,
        step_pow14(0xc3c8) == 0x8e36,
        step_pow14(0x8791) == 0x1c6c,
        step_pow14(0x0f22) == 0x38d9,
        step_pow14(0x1e45) == 0x71b3,
        step_pow14(0x3c8b) == 0xe366,
        step_pow14(0x7917) == 0xc6cd,
        step_pow14(0xf22f) == 0x8d9a,
        step_pow14(0xe45f) == 0x1b35,
{
}

/// The bits' orbits along 1, 3, 19, 51, ... 13107 steps, evaluated.
proof fn lemma_table_13107()
    by (bit_vector)
    ensures
        step_pow1(0x8000) == 0x2000,
        step_pow1(0x0001) == 0x4000,
        step_pow1(0x8002) == 0xa000,
        step_pow1(0x8004) == 0x6001,
        step_pow1(0x0008) == 0xc002,
        step_pow1(0x8010) == 0xa004,
        step_pow1(0x0020) == 0x4008,
        step_pow1(0x0040) == 0x8010,
        step_pow1(0x0080) == 0x0020,
        step_pow1(0x0100) == 0x0040,
        step_pow1(0x0200) == 0x0080,
        step_pow1(0x0400) == 0x0100,
        step_pow1(0x0800) == 0x0200,
        step_pow1(0x1000) == 0x0400,
        step_pow1(0x2000) == 0x0800,
        step_pow1(0x4000) == 0x1000,
        step_pow4(0x2000) == 0x2d00,
        step_pow4(0x4000) == 0x5a00,
        step_pow4(0xa000) == 0x9900,
        step_pow4(0x6001) == 0x1f01,
        step_pow4(0xc002) == 0x3e02,
        step_pow4(0xa004) == 0x5105,
        step_pow4(0x4008) == 0xa20b,
        step_pow4(0x8010) == 0x4416,
        step_pow4(0x0020) == 0x882d,
        step_pow4(0x0040) == 0x105a,
        step_pow4(0x0080) == 0x20b4,
        step_pow4(0x0100) == 0x4168,
        step_pow4(0x0200) == 0x82d0,
        step_pow4(0x0400) == 0x05a0,
        step_pow4(0x0800) == 0x0b40,
        step_pow4(0x1000) == 0x1680,
        step_pow5(0x2d00) == 0x2d6f,
        step_pow5(0x5a00) == 0x5ade,
        step_pow5(0x9900) == 0x98d2,
        step_pow5(0x1f01) == 0x1cca,
        step_pow5(0x3e02) == 0x3995,
        step_pow5(0x5105) == 0x5e45,
        step_pow5(0xa20b) == 0xbc8b,
        step_pow5(0x4416) == 0x7916,
        step_pow5(0x882d) == 0xf22d,
        step_pow5(0x105a) == 0xe45a,
        step_pow5(0x20b4) == 0xc8b5,
        step_pow5(0x4168) == 0x916b,
        step_pow5(0x82d0) == 0x22d6,
        step_pow5(0x05a0) == 0x45ad,
        step_pow5(0x0b40) == 0x8b5b,
        step_pow5(0x1680) == 0x16b7,
        step_pow8(0x2d6f) == 0x456d,
        step_pow8(0x5ade) == 0x8adb,
        step_pow8(0x98d2) == 0x50da,
        step_pow8(0x1cca) == 0xe4d9,
        step_pow8(0x3995) == 0xc9b2,
        step_pow8(0x5e45) == 0xd608,
        step_pow8(0xbc8b) == 0xac11,
        step_pow8(0x7916) == 0x5822,
        step_pow8(0xf22d) == 0xb045,
        step_pow8(0xe45a) == 0x608a,
        step_pow8(0xc8b5) == 0xc115,
        step_pow8(0x916b) == 0x822b,
        step_pow8(0x22d6) == 0x0456,
        step_pow8(0x45ad) == 0x08ad,
        step_pow8(0x8b5b) == 0x115b,
        step_pow8(0x16b7) == 0x22b6,
        step_pow9(0x456d) == 0x743f,
        step_pow9(0x8adb) == 0xe87f,
        step_pow9(0x50da) == 0xa4c1,
        step_pow9(0xe4d9) == 0x3dbc,
        step_pow9(0xc9b2) == 0x7b78,
        step_pow9(0xd608) == 0x82ce,
        step_pow9(0xac11) == 0x059d,
        step_pow9(0x5822) == 0x0b3a,
        step_pow9(0xb045) == 0x1674,
        step_pow9(0x608a) == 0x2ce8,
        step_pow9(0xc115) == 0x59d0,
        step_pow9(0x822b) == 0xb3a1,
        step_pow9(0x0456) == 0x6743,
        step_pow9(0x08ad) == 0xce87,
        step_pow9(0x115b) == 0x9d0f,
        step_pow9(0x22b6) == 0x3a1f,
        step_pow12(0x743f) == 0x6f1d,
        step_pow12(0xe87f) == 0xde3a,
        step_pow12(0xa4c1) == 0xd368,
        step_pow12(0x3dbc) == 0xc9cc,
        step_pow12(0x7b78) == 0x9398,
        step_pow12(0x82ce) == 0x482d,
        step_pow12(0x059d) == 0x905b,
        step_pow12(0x0b3a) == 0x20b7,
        step_pow12(0x1674) == 0x416f,
        step_pow12(0x2ce8) == 0x82de,
        step_pow12(0x59d0) == 0x05bc,
        step_pow12(0xb3a1) == 0x0b78,
        step_pow12(0x6743) == 0x16f1,
        step_pow12(0xce87) == 0x2de3,
        step_pow12(0x9d0f) == 0x5bc7,
        step_pow12(0x3a1f) == 0xb78e,
        step_pow13(0x6f1d) == 0x6ec2,
        step_pow13(0xde3a) == 0xdd85,
        step_pow13(0xd368) == 0xd5c8,
        step_pow13(0xc9cc) == 0xc553,
        step_pow13(0x9398) == 0x8aa7,
        step_pow13(0x482d) == 0x7b8d,
        step_pow13(0x905b) == 0xf71b,
        step_pow13(0x20b7) == 0xee37,
        step_pow13(0x416f) == 0xdc6e,
        step_pow13(0x82de) == 0xb8dd,
        step_pow13(0x05bc) == 0x71bb,
        step_pow13(0x0b78) == 0xe376,
        step_pow13(0x16f1) == 0xc6ec,
        step_pow13(0x2de3) == 0x8dd8,
        step_pow13(0x5bc7) == 0x1bb0,
        step_pow13(0xb78e) == 0x3761,
{
}

/// The bits' orbits along 1, 3, 7, 15, 271, ... 3855 steps, evaluated.
proof fn lemma_table_3855()
    by (bit_vector)
    ensures
        step_pow1(0x8000) == 0x2000,
        step_pow1(0x0001) == 0x4000,
        step_pow1(0x8002) == 0xa000,
        step_pow1(0x8004) == 0x6001,
        step_pow1(0x0008) == 0xc002,
        step_pow1(0x8010) == 0xa004,
        step_pow1(0x0020) == 0x4008,
        step_pow1(0x0040) == 0x8010,
        step_pow1(0x0080) == 0x0020,
        step_pow1(0x0100) == 0x0040,
        step_pow1(0x0200) == 0x0080,
        step_pow1(0x0400) == 0x0100,
        step_pow1(0x0800) == 0x0200,
        step_pow1(0x1000) == 0x0400,
        step_pow1(0x2000) == 0x0800,
        step_pow1(0x4000) == 0x1000,
        step_pow2(0x2000) == 0x0200,
        step_pow2(0x4000) == 0x0400,
        step_pow2(0xa000) == 0x0a00,
        step_pow2(0x6001) == 0x1600,
        step_pow2(0xc002) == 0x2c00,
        step_pow2(0xa004) == 0x5a00,
        step_pow2(0x4008) == 0xb400,
        step_pow2(0x8010) == 0x6801,
        step_pow2(0x0020) == 0xd002,
        step_pow2(0x0040) == 0xa004,
        step_pow2(0x0080) == 0x4008,
        step_pow2(0x0100) == 0x8010,
        step_pow2(0x0200) == 0x0020,
        step_pow2(0x0400) == 0x0040,
        step_pow2(0x0800) == 0x0080,
        step_pow2(0x1000) == 0x0100,
        step_pow3(0x0200) == 0xd002,
        step_pow3(0x0400) == 0xa004,
        step_pow3(0x0a00) == 0x900a,
        step_pow3(0x1600) == 0xf016,
        step_pow3(0x2c00) == 0xe02c,
        step_pow3(0x5a00) == 0x105a,
        step_pow3(0xb400) == 0x20b4,
        step_pow3(0x6801) == 0x4168,
        step_pow3(0xd002) == 0x82d0,
        step_pow3(0xa004) == 0x05a0,
        step_pow3(0x4008) == 0x0b40,
        step_pow3(0x8010) == 0x1680,
        step_pow3(0x0020) == 0x2d00,
        step_pow3(0x0040) == 0x5a00,
        step_pow3(0x0080) == 0xb400,
        step_pow3(0x0100) == 0x6801,
        step_pow8(0xd002) == 0xb571,
        step_pow8(0xa004) == 0x6ae2,
        step_pow8(0x900a) == 0x60b4,
        step_pow8(0xf016) == 0x7419,
        step_pow8(0xe02c) == 0xe833,
        step_pow8(0x105a) == 0x6516,
        step_pow8(0x20b4) == 0xca2d,
        step_pow8(0x4168) == 0x945a,
        step_pow8(0x82d0) == 0x28b5,
        step_pow8(0x05a0) == 0x516a,
        step_pow8(0x0b40) == 0xa2d5,
        step_pow8(0x1680) == 0x45ab,
        step_pow8(0x2d00) == 0x8b57,
        step_pow8(0x5a00) == 0x16ae,
        step_pow8(0xb400) == 0x2d5c,
        step_pow8(0x6801) == 0x5ab8,
        step_pow9(0xb571) == 0x6803,
        step_pow9(0x6ae2) == 0xd007,
        step_pow9(0x60b4) == 0xc80c,
        step_pow9(0x7419) == 0xf81b,
        step_pow9(0xe833) == 0xf037,
        step_pow9(0x6516) == 0x886d,
        step_pow9(0xca2d) == 0x10da,
        step_pow9(0x945a) == 0x21b4,
        step_pow9(0x28b5) == 0x4368,
        step_pow9(0x516a) == 0x86d0,
        step_pow9(0xa2d5) == 0x0da0,
        step_pow9(0x45ab) == 0x1b40,
        step_pow9(0x8b57) == 0x3680,
        step_pow9(0x16ae) == 0x6d00,
        step_pow9(0x2d5c) == 0xda00,
        step_pow9(0x5ab8) == 0xb401,
        step_pow10(0x6803) == 0x0ed3,
        step_pow10(0xd007) == 0x1da6,
        step_pow10(0xc80c) == 0x359f,
        step_pow10(0xf81b) == 0x65ec,
        step_pow10(0xf037) == 0xcbd9,
        step_pow10(0x886d) == 0x9961,
        step_pow10(0x10da) == 0x32c3,
        step_pow10(0x21b4) == 0x6587,
        step_pow10(0x4368) == 0xcb0e,
        step_pow10(0x86d0) == 0x961d,
        step_pow10(0x0da0) == 0x2c3b,
        step_pow10(0x1b40) == 0x5876,
        step_pow10(0x3680) == 0xb0ed,
        step_pow10(0x6d00) == 0x61da,
        step_pow10(0xda00) == 0xc3b4,
        step_pow10(0xb401) == 0x8769,
        step_pow11(0x0ed3) == 0xca6a,
        step_pow11(0x1da6) == 0x94d4,
        step_pow11(0x359f) == 0xe3c3,
        step_pow11(0x65ec) == 0x0dec,
        step_pow11(0xcbd9) == 0x1bd9,
        step_pow11(0x9961) == 0xfdd9,
        step_pow11(0x32c3) == 0xfbb2,
        step_pow11(0x6587) == 0xf765,
        step_pow11(0xcb0e) == 0xeeca,
        step_pow11(0x961d) == 0xdd94,
        step_pow11(0x2c3b) == 0xbb29,
        step_pow11(0x5876) == 0x7653,
        step_pow11(0xb0ed) == 0xeca6,
        step_pow11(0x61da) == 0xd94d,
        step_pow11(0xc3b4) == 0xb29a,
        step_pow11(0x8769) == 0x6535,
{
}

/// From `iter(x, a) == v` and `iter(v, n) == r`: `iter(x, a + n) == r`.
proof fn lemma_chain(x: u16, a: nat, n: nat, v: u16, r: u16)
    requires
        lfsr_iter(x, a) == v,
        lfsr_iter(v, n) == r,
    ensures
        lfsr_iter(x, a + n) == r,
{
    lemma_iter_add(x, a, n);
}

/// Each power is the corresponding number of steps.
proof fn lemma_powers_are_steps()
    ensures
        forall|x: u16| #[trigger] step_pow0(x) == lfsr_iter(x, 1),
        forall|x: u16| #[trigger] step_pow1(x) == lfsr_iter(x, 2),
        forall|x: u16| #[trigger] step_pow2(x) == lfsr_iter(x, 4),
        forall|x: u16| #[trigger] step_pow3(x) == lfsr_iter(x, 8),
        forall|x: u16| #[trigger] step_pow4(x) == lfsr_iter(x, 16),
        forall|x: u16| #[trigger] step_pow5(x) == lfsr_iter(x, 32),
        forall|x: u16| #[trigger] step_pow6(x) == lfsr_iter(x, 64),
        forall|x: u16| #[trigger] step_pow7(x) == lfsr_iter(x, 128),
        forall|x: u16| #[trigger] step_pow8(x) == lfsr_iter(x, 256),
        forall|x: u16| #[trigger] step_pow9(x) == lfsr_iter(x, 512),
        forall|x: u16| #[trigger] step_pow10(x) == lfsr_iter(x, 1024),
        forall|x: u16| #[trigger] step_pow11(x) == lfsr_iter(x, 2048),
        forall|x: u16| #[trigger] step_pow12(x) == lfsr_iter(x, 4096),
        forall|x: u16| #[trigger] step_pow13(x) == lfsr_iter(x, 8192),
        forall|x: u16| #[trigger] step_pow14(x) == lfsr_iter(x, 16384),
        forall|x: u16| #[trigger] step_pow15(x) == lfsr_iter(x, 32768),
        lfsr_iter(0x0001, 1) == 0x8000,
        lfsr_iter(0x0002, 1) == 0x0001,
        lfsr_iter(0x0004, 1) == 0x8002,
        lfsr_iter(0x0008, 1) == 0x8004,
        lfsr_iter(0x0010, 1) == 0x0008,
        lfsr_iter(0x0020, 1) == 0x8010,
        lfsr_iter(0x0040, 1) == 0x0020,
        lfsr_iter(0x0080, 1) == 0x0040,
        lfsr_iter(0x0100, 1) == 0x0080,
        lfsr_iter(0x0200, 1) == 0x0100,
        lfsr_iter(0x0400, 1) == 0x0200,
        lfsr_iter(0x0800, 1) == 0x0400,
        lfsr_iter(0x1000, 1) == 0x0800,
        lfsr_iter(0x2000, 1) == 0x1000,
        lfsr_iter(0x4000, 1) == 0x2000,
        lfsr_iter(0x8000, 1) == 0x4000,
{
    reveal(step_pow0);
    reveal(step_pow1);
    reveal(step_pow2);
    reveal(step_pow3);
    reveal(step_pow4);
    reveal(step_pow5);
    reveal(step_pow6);
    reveal(step_pow7);
    reveal(step_pow8);
    reveal(step_pow9);
    reveal(step_pow10);
    reveal(step_pow11);
    reveal(step_pow12);
    reveal(step_pow13);
    reveal(step_pow14);
    reveal(step_pow15);
    lemma_table_squares();
    assert(lfsr_iter(0x0001, 1) == lfsr_step(lfsr_iter(0x0001, 0)));
    assert(lfsr_iter(0x0002, 1) == lfsr_step(lfsr_iter(0x0002, 0)));
    assert(lfsr_iter(0x0004, 1) == lfsr_step(lfsr_iter(0x0004, 0)));
    assert(lfsr_iter(0x0008, 1) == lfsr_step(lfsr_iter(0x0008, 0)));
    assert(lfsr_iter(0x0010, 1) == lfsr_step(lfsr_iter(0x0010, 0)));
    assert(lfsr_iter(0x0020, 1) == lfsr_step(lfsr_iter(0x0020, 0)));
    assert(lfsr_iter(0x0040, 1) == lfsr_step(lfsr_iter(0x0040, 0)));
    assert(lfsr_iter(0x0080, 1) == lfsr_step(lfsr_iter(0x0080, 0)));
    assert(lfsr_iter(0x0100, 1) == lfsr_step(lfsr_iter(0x0100, 0)));
    assert(lfsr_iter(0x0200, 1) == lfsr_step(lfsr_iter(0x0200, 0)));
    assert(lfsr_iter(0x0400, 1) == lfsr_step(lfsr_iter(0x0400, 0)));
    assert(lfsr_iter(0x0800, 1) == lfsr_step(lfsr_iter(0x0800, 0)));
    assert(lfsr_iter(0x1000, 1) == lfsr_step(lfsr_iter(0x1000, 0)));
    assert(lfsr_iter(0x2000, 1) == lfsr_step(lfsr_iter(0x2000, 0)));
    assert(lfsr_iter(0x4000, 1) == lfsr_step(lfsr_iter(0x4000, 0)));
    assert(lfsr_iter(0x8000, 1) == lfsr_step(lfsr_iter(0x8000, 0)));
    assert forall|x: u16| #[trigger] step_pow0(x) == lfsr_iter(x, 1) by {
        lemma_iter_as_map(x, 1);
    }
    lemma_chain(0x0001, 1, 1, 0x8000, 0x4000);
    lemma_chain(0x0002, 1, 1, 0x0001, 0x8000);
    lemma_chain(0x0004, 1, 1, 0x8002, 0x4001);
    lemma_chain(0x0008, 1, 1, 0x8004, 0xc002);
    lemma_chain(0x0010, 1, 1, 0x0008, 0x8004);
    lemma_chain(0x0020, 1, 1, 0x8010, 0x4008);
    lemma_chain(0x0040, 1, 1, 0x0020, 0x8010);
    lemma_chain(0x0080, 1, 1, 0x0040, 0x0020);
    lemma_chain(0x0100, 1, 1, 0x0080, 0x0040);
    lemma_chain(0x0200, 1, 1, 0x0100, 0x0080);
    lemma_chain(0x0400, 1, 1, 0x0200, 0x0100);
    lemma_chain(0x0800, 1, 1, 0x0400, 0x0200);
    lemma_chain(0x1000, 1, 1, 0x0800, 0x0400);
    lemma_chain(0x2000, 1, 1, 0x1000, 0x0800);
    lemma_chain(0x4000, 1, 1, 0x2000, 0x1000);
    lemma_chain(0x8000, 1, 1, 0x4000, 0x2000);
    assert forall|x: u16| #[trigger] step_pow1(x) == lfsr_iter(x, 2) by {
        lemma_iter_as_map(x, 2);
    }
    lemma_chain(0x0001, 2, 2, 0x4000, 0x1000);
    lemma_chain(0x0002, 2, 2, 0x8000, 0x2000);
    lemma_chain(0x0004, 2, 2, 0x4001, 0x5000);
    lemma_chain(0x0008, 2, 2, 0xc002, 0xb000);
    lemma_chain(0x0010, 2, 2, 0x8004, 0x6001);
    lemma_chain(0x0020, 2, 2, 0x4008, 0xd002);
    lemma_chain(0x0040, 2, 2, 0x8010, 0xa004);
    lemma_chain(0x0080, 2, 2, 0x0020, 0x4008);
    lemma_chain(0x0100, 2, 2, 0x0040, 0x8010);
    lemma_chain(0x0200, 2, 2, 0x0080, 0x0020);
    lemma_chain(0x0400, 2, 2, 0x0100, 0x0040);
    lemma_chain(0x0800, 2, 2, 0x0200, 0x0080);
    lemma_chain(0x1000, 2, 2, 0x0400, 0x0100);
    lemma_chain(0x2000, 2, 2, 0x0800, 0x0200);
    lemma_chain(0x4000, 2, 2, 0x1000, 0x0400);
    lemma_chain(0x8000, 2, 2, 0x2000, 0x0800);
    assert forall|x: u16| #[trigger] step_pow2(x) == lfsr_iter(x, 4) by {
        lemma_iter_as_map(x, 4);
    }
    lemma_chain(0x0001, 4, 4, 0x1000, 0x0100);
    lemma_chain(0x0002, 4, 4, 0x2000, 0x0200);
    lemma_chain(0x0004, 4, 4, 0x5000, 0x0500);
    lemma_chain(0x0008, 4, 4, 0xb000, 0x0b00);
    lemma_chain(0x0010, 4, 4, 0x6001, 0x1600);
    lemma_chain(0x0020, 4, 4, 0xd002, 0x2d00);
    lemma_chain(0x0040, 4, 4, 0xa004, 0x5a00);
    lemma_chain(0x0080, 4, 4, 0x4008, 0xb400);
    lemma_chain(0x0100, 4, 4, 0x8010, 0x6801);
    lemma_chain(0x0200, 4, 4, 0x0020, 0xd002);
    lemma_chain(0x0400, 4, 4, 0x0040, 0xa004);
    lemma_chain(0x0800, 4, 4, 0x0080, 0x4008);
    lemma_chain(0x1000, 4, 4, 0x0100, 0x8010);
    lemma_chain(0x2000, 4, 4, 0x0200, 0x0020);
    lemma_chain(0x4000, 4, 4, 0x0400, 0x0040);
    lemma_chain(0x8000, 4, 4, 0x0800, 0x0080);
    assert forall|x: u16| #[trigger] step_pow3(x) == lfsr_iter(x, 8) by {
        lemma_iter_as_map(x, 8);
    }
    lemma_chain(0x0001, 8, 8, 0x0100, 0x6801);
    lemma_chain(0x0002, 8, 8, 0x0200, 0xd002);
    lemma_chain(0x0004, 8, 8, 0x0500, 0xc805);
    lemma_chain(0x0008, 8, 8, 0x0b00, 0xf80b);
    lemma_chain(0x0010, 8, 8, 0x1600, 0xf016);
    lemma_chain(0x0020, 8, 8, 0x2d00, 0x882d);
    lemma_chain(0x0040, 8, 8, 0x5a00, 0x105a);
    lemma_chain(0x0080, 8, 8, 0xb400, 0x20b4);
    lemma_chain(0x0100, 8, 8, 0x6801, 0x4168);
    lemma_chain(0x0200, 8, 8, 0xd002, 0x82d0);
    lemma_chain(0x0400, 8, 8, 0xa004, 0x05a0);
    lemma_chain(0x0800, 8, 8, 0x4008, 0x0b40);
    lemma_chain(0x1000, 8, 8, 0x8010, 0x1680);
    lemma_chain(0x2000, 8, 8, 0x0020, 0x2d00);
    lemma_chain(0x4000, 8, 8, 0x0040, 0x5a00);
    lemma_chain(0x8000, 8, 8, 0x0080, 0xb400);
    assert forall|x: u16| #[trigger] step_pow4(x) == lfsr_iter(x, 16) by {
        lemma_iter_as_map(x, 16);
    }
    lemma_chain(0x0001, 16, 16, 0x6801, 0x1441);
    lemma_chain(0x0002, 16, 16, 0xd002, 0x2882);
    lemma_chain(0x0004, 16, 16, 0xc805, 0x4544);
    lemma_chain(0x0008, 16, 16, 0xf80b, 0x9ec8);
    lemma_chain(0x0010, 16, 16, 0xf016, 0x3d91);
    lemma_chain(0x0020, 16, 16, 0x882d, 0x6f62);
    lemma_chain(0x0040, 16, 16, 0x105a, 0xdec5);
    lemma_chain(0x0080, 16, 16, 0x20b4, 0xbd8a);
    lemma_chain(0x0100, 16, 16, 0x4168, 0x7b14);
    lemma_chain(0x0200, 16, 16, 0x82d0, 0xf628);
    lemma_chain(0x0400, 16, 16, 0x05a0, 0xec51);
    lemma_chain(0x0800, 16, 16, 0x0b40, 0xd8a2);
    lemma_chain(0x1000, 16, 16, 0x1680, 0xb144);
    lemma_chain(0x2000, 16, 16, 0x2d00, 0x6288);
    lemma_chain(0x4000, 16, 16, 0x5a00, 0xc510);
    lemma_chain(0x8000, 16, 16, 0xb400, 0x8a20);
    assert forall|x: u16| #[trigger] step_pow5(x) == lfsr_iter(x, 32) by {
        lemma_iter_as_map(x, 32);
    }
    lemma_chain(0x0001, 32, 32, 0x1441, 0x9791);
    lemma_chain(0x0002, 32, 32, 0x2882, 0x2f22);
    lemma_chain(0x0004, 32, 32, 0x4544, 0xc9d4);
    lemma_chain(0x0008, 32, 32, 0x9ec8, 0x0438);
    lemma_chain(0x0010, 32, 32, 0x3d91, 0x0871);
    lemma_chain(0x0020, 32, 32, 0x6f62, 0x8772);
    lemma_chain(0x0040, 32, 32, 0xdec5, 0x0ee5);
    lemma_chain(0x0080, 32, 32, 0xbd8a, 0x1dcb);
    lemma_chain(0x0100, 32, 32, 0x7b14, 0x3b97);
    lemma_chain(0x0200, 32, 32, 0xf628, 0x772f);
    lemma_chain(0x0400, 32, 32, 0xec51, 0xee5e);
    lemma_chain(0x0800, 32, 32, 0xd8a2, 0xdcbc);
    lemma_chain(0x1000, 32, 32, 0xb144, 0xb979);
    lemma_chain(0x2000, 32, 32, 0x6288, 0x72f2);
    lemma_chain(0x4000, 32, 32, 0xc510, 0xe5e4);
    lemma_chain(0x8000, 32, 32, 0x8a20, 0xcbc8);
    assert forall|x: u16| #[trigger] step_pow6(x) == lfsr_iter(x, 64) by {
        lemma_iter_as_map(x, 64);
    }
    lemma_chain(0x0001, 64, 64, 0x9791, 0x527c);
    lemma_chain(0x0002, 64, 64, 0x2f22, 0xa4f8);
    lemma_chain(0x0004, 64, 64, 0xc9d4, 0x1b8c);
    lemma_chain(0x0008, 64, 64, 0x0438, 0x6565);
    lemma_chain(0x0010, 64, 64, 0x0871, 0xcacb);
    lemma_chain(0x0020, 64, 64, 0x8772, 0xc7ea);
    lemma_chain(0x0040, 64, 64, 0x0ee5, 0x8fd4);
    lemma_chain(0x0080, 64, 64, 0x1dcb, 0x1fa9);
    lemma_chain(0x0100, 64, 64, 0x3b97, 0x3f52);
    lemma_chain(0x0200, 64, 64, 0x772f, 0x7ea4);
    lemma_chain(0x0400, 64, 64, 0xee5e, 0xfd49);
    lemma_chain(0x0800, 64, 64, 0xdcbc, 0xfa93);
    lemma_chain(0x1000, 64, 64, 0xb979, 0xf527);
    lemma_chain(0x2000, 64, 64, 0x72f2, 0xea4f);
    lemma_chain(0x4000, 64, 64, 0xe5e4, 0xd49f);
    lemma_chain(0x8000, 64, 64, 0xcbc8, 0xa93e);
    assert forall|x: u16| #[trigger] step_pow7(x) == lfsr_iter(x, 128) by {
        lemma_iter_as_map(x, 128);
    }
    lemma_chain(0x0001, 128, 128, 0x527c, 0xa300);
    lemma_chain(0x0002, 128, 128, 0xa4f8, 0x4601);
    lemma_chain(0x0004, 128, 128, 0x1b8c, 0x2f02);
    lemma_chain(0x0008, 128, 128, 0x6565, 0xfd05);
    lemma_chain(0x0010, 128, 128, 0xcacb, 0xfa0a);
    lemma_chain(0x0020, 128, 128, 0xc7ea, 0x5714);
    lemma_chain(0x0040, 128, 128, 0x8fd4, 0xae28);
    lemma_chain(0x0080, 128, 128, 0x1fa9, 0x5c51);
    lemma_chain(0x0100, 128, 128, 0x3f52, 0xb8a3);
    lemma_chain(0x0200, 128, 128, 0x7ea4, 0x7146);
    lemma_chain(0x0400, 128, 128, 0xfd49, 0xe28c);
    lemma_chain(0x0800, 128, 128, 0xfa93, 0xc518);
    lemma_chain(0x1000, 128, 128, 0xf527, 0x8a30);
    lemma_chain(0x2000, 128, 128, 0xea4f, 0x1460);
    lemma_chain(0x4000, 128, 128, 0xd49f, 0x28c0);
    lemma_chain(0x8000, 128, 128, 0xa93e, 0x5180);
    assert forall|x: u16| #[trigger] step_pow8(x) == lfsr_iter(x, 256) by {
        lemma_iter_as_map(x, 256);
    }
    lemma_chain(0x0001, 256, 256, 0xa300, 0x8c05);
    lemma_chain(0x0002, 256, 256, 0x4601, 0x180a);
    lemma_chain(0x0004, 256, 256, 0x2f02, 0xbc10);
    lemma_chain(0x0008, 256, 256, 0xfd05, 0xf425);
    lemma_chain(0x0010, 256, 256, 0xfa0a, 0xe84a);
    lemma_chain(0x0020, 256, 256, 0x5714, 0x5c91);
    lemma_chain(0x0040, 256, 256, 0xae28, 0xb923);
    lemma_chain(0x0080, 256, 256, 0x5c51, 0x7246);
    lemma_chain(0x0100, 256, 256, 0xb8a3, 0xe48c);
    lemma_chain(0x0200, 256, 256, 0x7146, 0xc918);
    lemma_chain(0x0400, 256, 256, 0xe28c, 0x9230);
    lemma_chain(0x0800, 256, 256, 0xc518, 0x2460);
    lemma_chain(0x1000, 256, 256, 0x8a30, 0x48c0);
    lemma_chain(0x2000, 256, 256, 0x1460, 0x9180);
    lemma_chain(0x4000, 256, 256, 0x28c0, 0x2301);
    lemma_chain(0x8000, 256, 256, 0x5180, 0x4602);
    assert forall|x: u16| #[trigger] step_pow9(x) == lfsr_iter(x, 512) by {
        lemma_iter_as_map(x, 512);
    }
    lemma_chain(0x0001, 512, 512, 0x8c05, 0xc047);
    lemma_chain(0x0002, 512, 512, 0x180a, 0x808f);
    lemma_chain(0x0004, 512, 512, 0xbc10, 0xc158);
    lemma_chain(0x0008, 512, 512, 0xf425, 0x42f7);
    lemma_chain(0x0010, 512, 512, 0xe84a, 0x85ef);
    lemma_chain(0x0020, 512, 512, 0x5c91, 0xcb98);
    lemma_chain(0x0040, 512, 512, 0xb923, 0x9730);
    lemma_chain(0x0080, 512, 512, 0x7246, 0x2e60);
    lemma_chain(0x0100, 512, 512, 0xe48c, 0x5cc0);
    lemma_chain(0x0200, 512, 512, 0xc918, 0xb980);
    lemma_chain(0x0400, 512, 512, 0x9230, 0x7301);
    lemma_chain(0x0800, 512, 512, 0x2460, 0xe602);
    lemma_chain(0x1000, 512, 512, 0x48c0, 0xcc04);
    lemma_chain(0x2000, 512, 512, 0x9180, 0x9808);
    lemma_chain(0x4000, 512, 512, 0x2301, 0x3011);
    lemma_chain(0x8000, 512, 512, 0x4602, 0x6023);
    assert forall|x: u16| #[trigger] step_pow10(x) == lfsr_iter(x, 1024) by {
        lemma_iter_as_map(x, 1024);
    }
    lemma_chain(0x0001, 1024, 1024, 0xc047, 0x4692);
    lemma_chain(0x0002, 1024, 1024, 0x808f, 0x8d24);
    lemma_chain(0x0004, 1024, 1024, 0xc158, 0x5cda);
    lemma_chain(0x0008, 1024, 1024, 0x42f7, 0xff26);
    lemma_chain(0x0010, 1024, 1024, 0x85ef, 0xfe4d);
    lemma_chain(0x0020, 1024, 1024, 0xcb98, 0xba08);
    lemma_chain(0x0040, 1024, 1024, 0x9730, 0x7411);
    lemma_chain(0x0080, 1024, 1024, 0x2e60, 0xe823);
    lemma_chain(0x0100, 1024, 1024, 0x5cc0, 0xd046);
    lemma_chain(0x0200, 1024, 1024, 0xb980, 0xa08d);
    lemma_chain(0x0400, 1024, 1024, 0x7301, 0x411a);
    lemma_chain(0x0800, 1024, 1024, 0xe602, 0x8234);
    lemma_chain(0x1000, 1024, 1024, 0xcc04, 0x0469);
    lemma_chain(0x2000, 1024, 1024, 0x9808, 0x08d2);
    lemma_chain(0x4000, 1024, 1024, 0x3011, 0x11a4);
    lemma_chain(0x8000, 1024, 1024, 0x6023, 0x2349);
    assert forall|x: u16| #[trigger] step_pow11(x) == lfsr_iter(x, 2048) by {
        lemma_iter_as_map(x, 2048);
    }
    lemma_chain(0x0001, 2048, 2048, 0x4692, 0x6b79);
    lemma_chain(0x0002, 2048, 2048, 0x8d24, 0xd6f3);
    lemma_chain(0x0004, 2048, 2048, 0x5cda, 0xc69e);
    lemma_chain(0x0008, 2048, 2048, 0xff26, 0xe645);
    lemma_chain(0x0010, 2048, 2048, 0xfe4d, 0xcc8a);
    lemma_chain(0x0020, 2048, 2048, 0xba08, 0xf26d);
    lemma_chain(0x0040, 2048, 2048, 0x7411, 0xe4da);
    lemma_chain(0x0080, 2048, 2048, 0xe823, 0xc9b5);
    lemma_chain(0x0100, 2048, 2048, 0xd046, 0x936b);
    lemma_chain(0x0200, 2048, 2048, 0xa08d, 0x26d6);
    lemma_chain(0x0400, 2048, 2048, 0x411a, 0x4dad);
    lemma_chain(0x0800, 2048, 2048, 0x8234, 0x9b5b);
    lemma_chain(0x1000, 2048, 2048, 0x0469, 0x36b7);
    lemma_chain(0x2000, 2048, 2048, 0x08d2, 0x6d6f);
    lemma_chain(0x4000, 2048, 2048, 0x11a4, 0xdade);
    lemma_chain(0x8000, 2048, 2048, 0x2349, 0xb5bc);
    assert forall|x: u16| #[trigger] step_pow12(x) == lfsr_iter(x, 4096) by {
        lemma_iter_as_map(x, 4096);
    }
    lemma_chain(0x0001, 4096, 4096, 0x6b79, 0xce56);
    lemma_chain(0x0002, 4096, 4096, 0xd6f3, 0x9cac);
    lemma_chain(0x0004, 4096, 4096, 0xc69e, 0xf70e);
    lemma_chain(0x0008, 4096, 4096, 0xe645, 0x204b);
    lemma_chain(0x0010, 4096, 4096, 0xcc8a, 0x4097);
    lemma_chain(0x0020, 4096, 4096, 0xf26d, 0x4f79);
    lemma_chain(0x0040, 4096, 4096, 0xe4da, 0x9ef3);
    lemma_chain(0x0080, 4096, 4096, 0xc9b5, 0x3de7);
    lemma_chain(0x0100, 4096, 4096, 0x936b, 0x7bce);
    lemma_chain(0x0200, 4096, 4096, 0x26d6, 0xf79c);
    lemma_chain(0x0400, 4096, 4096, 0x4dad, 0xef39);
    lemma_chain(0x0800, 4096, 4096, 0x9b5b, 0xde72);
    lemma_chain(0x1000, 4096, 4096, 0x36b7, 0xbce5);
    lemma_chain(0x2000, 4096, 4096, 0x6d6f, 0x79ca);
    lemma_chain(0x4000, 4096, 4096, 0xdade, 0xf395);
    lemma_chain(0x8000, 4096, 4096, 0xb5bc, 0xe72b);
    assert forall|x: u16| #[trigger] step_pow13(x) == lfsr_iter(x, 8192) by {
        lemma_iter_as_map(x, 8192);
    }
    lemma_chain(0x0001, 8192, 8192, 0xce56, 0x67af);
    lemma_chain(0x0002, 8192, 8192, 0x9cac, 0xcf5e);
    lemma_chain(0x0004, 8192, 8192, 0xf70e, 0xf913);
    lemma_chain(0x0008, 8192, 8192, 0x204b, 0x9588);
    lemma_chain(0x0010, 8192, 8192, 0x4097, 0x2b11);
    lemma_chain(0x0020, 8192, 8192, 0x4f79, 0x318c);
    lemma_chain(0x0040, 8192, 8192, 0x9ef3, 0x6319);
    lemma_chain(0x0080, 8192, 8192, 0x3de7, 0xc633);
    lemma_chain(0x0100, 8192, 8192, 0x7bce, 0x8c67);
    lemma_chain(0x0200, 8192, 8192, 0xf79c, 0x18cf);
    lemma_chain(0x0400, 8192, 8192, 0xef39, 0x319e);
    lemma_chain(0x0800, 8192, 8192, 0xde72, 0x633d);
    lemma_chain(0x1000, 8192, 8192, 0xbce5, 0xc67a);
    lemma_chain(0x2000, 8192, 8192, 0x79ca, 0x8cf5);
    lemma_chain(0x4000, 8192, 8192, 0xf395, 0x19eb);
    lemma_chain(0x8000, 8192, 8192, 0xe72b, 0x33d7);
    assert forall|x: u16| #[trigger] step_pow14(x) == lfsr_iter(x, 16384) by {
        lemma_iter_as_map(x, 16384);
    }
    lemma_chain(0x0001, 16384, 16384, 0x67af, 0x03fd);
    lemma_chain(0x0002, 16384, 16384, 0xcf5e, 0x07fa);
    lemma_chain(0x0004, 16384, 16384, 0xf913, 0x0c09);
    lemma_chain(0x0008, 16384, 16384, 0x9588, 0x1bef);
    lemma_chain(0x0010, 16384, 16384, 0x2b11, 0x37de);
    lemma_chain(0x0020, 16384, 16384, 0x318c, 0x6c40);
    lemma_chain(0x0040, 16384, 16384, 0x6319, 0xd880);
    lemma_chain(0x0080, 16384, 16384, 0xc633, 0xb101);
    lemma_chain(0x0100, 16384, 16384, 0x8c67, 0x6203);
    lemma_chain(0x0200, 16384, 16384, 0x18cf, 0xc407);
    lemma_chain(0x0400, 16384, 16384, 0x319e, 0x880f);
    lemma_chain(0x0800, 16384, 16384, 0x633d, 0x101f);
    lemma_chain(0x1000, 16384, 16384, 0xc67a, 0x203f);
    lemma_chain(0x2000, 16384, 16384, 0x8cf5, 0x407f);
    lemma_chain(0x4000, 16384, 16384, 0x19eb, 0x80ff);
    lemma_chain(0x8000, 16384, 16384, 0x33d7, 0x01fe);
    assert forall|x: u16| #[trigger] step_pow15(x) == lfsr_iter(x, 32768) by {
        lemma_iter_as_map(x, 32768);
    }
}

/// 65535 steps as a linear map: the identity, column by column.
#[verifier::rlimit(100)]
proof fn lemma_steps_65535()
    ensures
        forall|x: u16| #[trigger] lfsr_iter(x, 65535) == lin16(0x0001, 0x0002, 0x0004, 0x0008, 0x0010, 0x0020, 0x0040, 0x0080, 0x0100, 0x0200, 0x0400, 0x0800, 0x1000, 0x2000, 0x4000, 0x8000, x),
{
    lemma_powers_are_steps();
    lemma_table_full();
    lemma_chain(0x0001, 1, 2, 0x8000, 0x2000);
    lemma_chain(0x0002, 1, 2, 0x0001, 0x4000);
    lemma_chain(0x0004, 1, 2, 0x8002, 0xa000);
    lemma_chain(0x0008, 1, 2, 0x8004, 0x6001);
    lemma_chain(0x0010, 1, 2, 0x0008, 0xc002);
    lemma_chain(0x0020, 1, 2, 0x8010, 0xa004);
    lemma_chain(0x0040, 1, 2, 0x0020, 0x4008);
    lemma_chain(0x0080, 1, 2, 0x0040, 0x8010);
    lemma_chain(0x0100, 1, 2, 0x0080, 0x0020);
    lemma_chain(0x0200, 1, 2, 0x0100, 0x0040);
    lemma_chain(0x0400, 1, 2, 0x0200, 0x0080);
    lemma_chain(0x0800, 1, 2, 0x0400, 0x0100);
    lemma_chain(0x1000, 1, 2, 0x0800, 0x0200);
    lemma_chain(0x2000, 1, 2, 0x1000, 0x0400);
    lemma_chain(0x4000, 1, 2, 0x2000, 0x0800);
    lemma_chain(0x8000, 1, 2, 0x4000, 0x1000);
    lemma_chain(0x0001, 3, 4, 0x2000, 0x0200);
    lemma_chain(0x0002, 3, 4, 0x4000, 0x0400);
    lemma_chain(0x0004, 3, 4, 0xa000, 0x0a00);
    lemma_chain(0x0008, 3, 4, 0x6001, 0x1600);
    lemma_chain(0x0010, 3, 4, 0xc002, 0x2c00);
    lemma_chain(0x0020, 3, 4, 0xa004, 0x5a00);
    lemma_chain(0x0040, 3, 4, 0x4008, 0xb400);
    lemma_chain(0x0080, 3, 4, 0x8010, 0x6801);
    lemma_chain(0x0100, 3, 4, 0x0020, 0xd002);
    lemma_chain(0x0200, 3, 4, 0x0040, 0xa004);
    lemma_chain(0x0400, 3, 4, 0x0080, 0x4008);
    lemma_chain(0x0800, 3, 4, 0x0100, 0x8010);
    lemma_chain(0x1000, 3, 4, 0x0200, 0x0020);
    lemma_chain(0x2000, 3, 4, 0x0400, 0x0040);
    lemma_chain(0x4000, 3, 4, 0x0800, 0x0080);
    lemma_chain(0x8000, 3, 4, 0x1000, 0x0100);
    lemma_chain(0x0001, 7, 8, 0x0200, 0xd002);
    lemma_chain(0x0002, 7, 8, 0x0400, 0xa004);
    lemma_chain(0x0004, 7, 8, 0x0a00, 0x900a);
    lemma_chain(0x0008, 7, 8, 0x1600, 0xf016);
    lemma_chain(0x0010, 7, 8, 0x2c00, 0xe02c);
    lemma_chain(0x0020, 7, 8, 0x5a00, 0x105a);
    lemma_chain(0x0040, 7, 8, 0xb400, 0x20b4);
    lemma_chain(0x0080, 7, 8, 0x6801, 0x4168);
    lemma_chain(0x0100, 7, 8, 0xd002, 0x82d0);
    lemma_chain(0x0200, 7, 8, 0xa004, 0x05a0);
    lemma_chain(0x0400, 7, 8, 0x4008, 0x0b40);
    lemma_chain(0x0800, 7, 8, 0x8010, 0x1680);
    lemma_chain(0x1000, 7, 8, 0x0020, 0x2d00);
    lemma_chain(0x2000, 7, 8, 0x0040, 0x5a00);
    lemma_chain(0x4000, 7, 8, 0x0080, 0xb400);
    lemma_chain(0x8000, 7, 8, 0x0100, 0x6801);
    lemma_chain(0x0001, 15, 16, 0xd002, 0x2882);
    lemma_chain(0x0002, 15, 16, 0xa004, 0x5105);
    lemma_chain(0x0004, 15, 16, 0x900a, 0x8a89);
    lemma_chain(0x0008, 15, 16, 0xf016, 0x3d91);
    lemma_chain(0x0010, 15, 16, 0xe02c, 0x7b23);
    lemma_chain(0x0020, 15, 16, 0x105a, 0xdec5);
    lemma_chain(0x0040, 15, 16, 0x20b4, 0xbd8a);
    lemma_chain(0x0080, 15, 16, 0x4168, 0x7b14);
    lemma_chain(0x0100, 15, 16, 0x82d0, 0xf628);
    lemma_chain(0x0200, 15, 16, 0x05a0, 0xec51);
    lemma_chain(0x0400, 15, 16, 0x0b40, 0xd8a2);
    lemma_chain(0x0800, 15, 16, 0x1680, 0xb144);
    lemma_chain(0x1000, 15, 16, 0x2d00, 0x6288);
    lemma_chain(0x2000, 15, 16, 0x5a00, 0xc510);
    lemma_chain(0x4000, 15, 16, 0xb400, 0x8a20);
    lemma_chain(0x8000, 15, 16, 0x6801, 0x1441);
    lemma_chain(0x0001, 31, 32, 0x2882, 0x2f22);
    lemma_chain(0x0002, 31, 32, 0x5105, 0x5e45);
    lemma_chain(0x0004, 31, 32, 0x8a89, 0x93a9);
    lemma_chain(0x0008, 31, 32, 0x3d91, 0x0871);
    lemma_chain(0x0010, 31, 32, 0x7b23, 0x10e3);
    lemma_chain(0x0020, 31, 32, 0xdec5, 0x0ee5);
    lemma_chain(0x0040, 31, 32, 0xbd8a, 0x1dcb);
    lemma_chain(0x0080, 31, 32, 0x7b14, 0x3b97);
    lemma_chain(0x0100, 31, 32, 0xf628, 0x772f);
    lemma_chain(0x0200, 31, 32, 0xec51, 0xee5e);
    lemma_chain(0x0400, 31, 32, 0xd8a2, 0xdcbc);
    lemma_chain(0x0800, 31, 32, 0xb144, 0xb979);
    lemma_chain(0x1000, 31, 32, 0x6288, 0x72f2);
    lemma_chain(0x2000, 31, 32, 0xc510, 0xe5e4);
    lemma_chain(0x4000, 31, 32, 0x8a20, 0xcbc8);
    lemma_chain(0x8000, 31, 32, 0x1441, 0x9791);
    lemma_chain(0x0001, 63, 64, 0x2f22, 0xa4f8);
    lemma_chain(0x0002, 63, 64, 0x5e45, 0x49f0);
    lemma_chain(0x0004, 63, 64, 0x93a9, 0x3719);
    lemma_chain(0x0008, 63, 64, 0x0871, 0xcacb);
    lemma_chain(0x0010, 63, 64, 0x10e3, 0x9596);
    lemma_chain(0x0020, 63, 64, 0x0ee5, 0x8fd4);
    lemma_chain(0x0040, 63, 64, 0x1dcb, 0x1fa9);
    lemma_chain(0x0080, 63, 64, 0x3b97, 0x3f52);
    lemma_chain(0x0100, 63, 64, 0x772f, 0x7ea4);
    lemma_chain(0x0200, 63, 64, 0xee5e, 0xfd49);
    lemma_chain(0x0400, 63, 64, 0xdcbc, 0xfa93);
    lemma_chain(0x0800, 63, 64, 0xb979, 0xf527);
    lemma_chain(0x1000, 63, 64, 0x72f2, 0xea4f);
    lemma_chain(0x2000, 63, 64, 0xe5e4, 0xd49f);
    lemma_chain(0x4000, 63, 64, 0xcbc8, 0xa93e);
    lemma_chain(0x8000, 63, 64, 0x9791, 0x527c);
    lemma_chain(0x0001, 127, 128, 0xa4f8, 0x4601);
    lemma_chain(0x0002, 127, 128, 0x49f0, 0x8c02);
    lemma_chain(0x0004, 127, 128, 0x3719, 0x5e05);
    lemma_chain(0x0008, 127, 128, 0xcacb, 0xfa0a);
    lemma_chain(0x0010, 127, 128, 0x9596, 0xf414);
    lemma_chain(0x0020, 127, 128, 0x8fd4, 0xae28);
    lemma_chain(0x0040, 127, 128, 0x1fa9, 0x5c51);
    lemma_chain(0x0080, 127, 128, 0x3f52, 0xb8a3);
    lemma_chain(0x0100, 127, 128, 0x7ea4, 0x7146);
    lemma_chain(0x0200, 127, 128, 0xfd49, 0xe28c);
    lemma_chain(0x0400, 127, 128, 0xfa93, 0xc518);
    lemma_chain(0x0800, 127, 128, 0xf527, 0x8a30);
    lemma_chain(0x1000, 127, 128, 0xea4f, 0x1460);
    lemma_chain(0x2000, 127, 128, 0xd49f, 0x28c0);
    lemma_chain(0x4000, 127, 128, 0xa93e, 0x5180);
    lemma_chain(0x8000, 127, 128, 0x527c, 0xa300);
    lemma_chain(0x0001, 255, 256, 0x4601, 0x180a);
    lemma_chain(0x0002, 255, 256, 0x8c02, 0x3015);
    lemma_chain(0x0004, 255, 256, 0x5e05, 0x7820);
    lemma_chain(0x0008, 255, 256, 0xfa0a, 0xe84a);
    lemma_chain(0x0010, 255, 256, 0xf414, 0xd094);
    lemma_chain(0x0020, 255, 256, 0xae28, 0xb923);
    lemma_chain(0x0040, 255, 256, 0x5c51, 0x7246);
    lemma_chain(0x0080, 255, 256, 0xb8a3, 0xe48c);
    lemma_chain(0x0100, 255, 256, 0x7146, 0xc918);
    lemma_chain(0x0200, 255, 256, 0xe28c, 0x9230);
    lemma_chain(0x0400, 255, 256, 0xc518, 0x2460);
    lemma_chain(0x0800, 255, 256, 0x8a30, 0x48c0);
    lemma_chain(0x1000, 255, 256, 0x1460, 0x9180);
    lemma_chain(0x2000, 255, 256, 0x28c0, 0x2301);
    lemma_chain(0x4000, 255, 256, 0x5180, 0x4602);
    lemma_chain(0x8000, 255, 256, 0xa300, 0x8c05);
    lemma_chain(0x0001, 511, 512, 0x180a, 0x808f);
    lemma_chain(0x0002, 511, 512, 0x3015, 0x011f);
    lemma_chain(0x0004, 511, 512, 0x7820, 0x82b0);
    lemma_chain(0x0008, 511, 512, 0xe84a, 0x85ef);
    lemma_chain(0x0010, 511, 512, 0xd094, 0x0bdf);
    lemma_chain(0x0020, 511, 512, 0xb923, 0x9730);
    lemma_chain(0x0040, 511, 512, 0x7246, 0x2e60);
    lemma_chain(0x0080, 511, 512, 0xe48c, 0x5cc0);
    lemma_chain(0x0100, 511, 512, 0xc918, 0xb980);
    lemma_chain(0x0200, 511, 512, 0x9230, 0x7301);
    lemma_chain(0x0400, 511, 512, 0x2460, 0xe602);
    lemma_chain(0x0800, 511, 512, 0x48c0, 0xcc04);
    lemma_chain(0x1000, 511, 512, 0x9180, 0x9808);
    lemma_chain(0x2000, 511, 512, 0x2301, 0x3011);
    lemma_chain(0x4000, 511, 512, 0x4602, 0x6023);
    lemma_chain(0x8000, 511, 512, 0x8c05, 0xc047);
    lemma_chain(0x0001, 1023, 1024, 0x808f, 0x8d24);
    lemma_chain(0x0002, 1023, 1024, 0x011f, 0x1a48);
    lemma_chain(0x0004, 1023, 1024, 0x82b0, 0xb9b4);
    lemma_chain(0x0008, 1023, 1024, 0x85ef, 0xfe4d);
    lemma_chain(0x0010, 1023, 1024, 0x0bdf, 0xfc9a);
    lemma_chain(0x0020, 1023, 1024, 0x9730, 0x7411);
    lemma_chain(0x0040, 1023, 1024, 0x2e60, 0xe823);
    lemma_chain(0x0080, 1023, 1024, 0x5cc0, 0xd046);
    lemma_chain(0x0100, 1023, 1024, 0xb980, 0xa08d);
    lemma_chain(0x0200, 1023, 1024, 0x7301, 0x411a);
    lemma_chain(0x0400, 1023, 1024, 0xe602, 0x8234);
    lemma_chain(0x0800, 1023, 1024, 0xcc04, 0x0469);
    lemma_chain(0x1000, 1023, 1024, 0x9808, 0x08d2);
    lemma_chain(0x2000, 1023, 1024, 0x3011, 0x11a4);
    lemma_chain(0x4000, 1023, 1024, 0x6023, 0x2349);
    lemma_chain(0x8000, 1023, 1024, 0xc047, 0x4692);
    lemma_chain(0x0001, 2047, 2048, 0x8d24, 0xd6f3);
    lemma_chain(0x0002, 2047, 2048, 0x1a48, 0xade7);
    lemma_chain(0x0004, 2047, 2048, 0xb9b4, 0x8d3c);
    lemma_chain(0x0008, 2047, 2048, 0xfe4d, 0xcc8a);
    lemma_chain(0x0010, 2047, 2048, 0xfc9a, 0x9914);
    lemma_chain(0x0020, 2047, 2048, 0x7411, 0xe4da);
    lemma_chain(0x0040, 2047, 2048, 0xe823, 0xc9b5);
    lemma_chain(0x0080, 2047, 2048, 0xd046, 0x936b);
    lemma_chain(0x0100, 2047, 2048, 0xa08d, 0x26d6);
    lemma_chain(0x0200, 2047, 2048, 0x411a, 0x4dad);
    lemma_chain(0x0400, 2047, 2048, 0x8234, 0x9b5b);
    lemma_chain(0x0800, 2047, 2048, 0x0469, 0x36b7);
    lemma_chain(0x1000, 2047, 2048, 0x08d2, 0x6d6f);
    lemma_chain(0x2000, 2047, 2048, 0x11a4, 0xdade);
    lemma_chain(0x4000, 2047, 2048, 0x2349, 0xb5bc);
    lemma_chain(0x8000, 2047, 2048, 0x4692, 0x6b79);
    lemma_chain(0x0001, 4095, 4096, 0xd6f3, 0x9cac);
    lemma_chain(0x0002, 4095, 4096, 0xade7, 0x3958);
    lemma_chain(0x0004, 4095, 4096, 0x8d3c, 0xee1d);
    lemma_chain(0x0008, 4095, 4096, 0xcc8a, 0x4097);
    lemma_chain(0x0010, 4095, 4096, 0x9914, 0x812f);
    lemma_chain(0x0020, 4095, 4096, 0xe4da, 0x9ef3);
    lemma_chain(0x0040, 4095, 4096, 0xc9b5, 0x3de7);
    lemma_chain(0x0080, 4095, 4096, 0x936b, 0x7bce);
    lemma_chain(0x0100, 4095, 4096, 0x26d6, 0xf79c);
    lemma_chain(0x0200, 4095, 4096, 0x4dad, 0xef39);
    lemma_chain(0x0400, 4095, 4096, 0x9b5b, 0xde72);
    lemma_chain(0x0800, 4095, 4096, 0x36b7, 0xbce5);
    lemma_chain(0x1000, 4095, 4096, 0x6d6f, 0x79ca);
    lemma_chain(0x2000, 4095, 4096, 0xdade, 0xf395);
    lemma_chain(0x4000, 4095, 4096, 0xb5bc, 0xe72b);
    lemma_chain(0x8000, 4095, 4096, 0x6b79, 0xce56);
    lemma_chain(0x0001, 8191, 8192, 0x9cac, 0xcf5e);
    lemma_chain(0x0002, 8191, 8192, 0x3958, 0x9ebc);
    lemma_chain(0x0004, 8191, 8192, 0xee1d, 0xf227);
    lemma_chain(0x0008, 8191, 8192, 0x4097, 0x2b11);
    lemma_chain(0x0010, 8191, 8192, 0x812f, 0x5623);
    lemma_chain(0x0020, 8191, 8192, 0x9ef3, 0x6319);
    lemma_chain(0x0040, 8191, 8192, 0x3de7, 0xc633);
    lemma_chain(0x0080, 8191, 8192, 0x7bce, 0x8c67);
    lemma_chain(0x0100, 8191, 8192, 0xf79c, 0x18cf);
    lemma_chain(0x0200, 8191, 8192, 0xef39, 0x319e);
    lemma_chain(0x0400, 8191, 8192, 0xde72, 0x633d);
    lemma_chain(0x0800, 8191, 8192, 0xbce5, 0xc67a);
    lemma_chain(0x1000, 8191, 8192, 0x79ca, 0x8cf5);
    lemma_chain(0x2000, 8191, 8192, 0xf395, 0x19eb);
    lemma_chain(0x4000, 8191, 8192, 0xe72b, 0x33d7);
    lemma_chain(0x8000, 8191, 8192, 0xce56, 0x67af);
    lemma_chain(0x0001, 16383, 16384, 0xcf5e, 0x07fa);
    lemma_chain(0x0002, 16383, 16384, 0x9ebc, 0x0ff4);
    lemma_chain(0x0004, 16383, 16384, 0xf227, 0x1812);
    lemma_chain(0x0008, 16383, 16384, 0x2b11, 0x37de);
    lemma_chain(0x0010, 16383, 16384, 0x5623, 0x6fbd);
    lemma_chain(0x0020, 16383, 16384, 0x6319, 0xd880);
    lemma_chain(0x0040, 16383, 16384, 0xc633, 0xb101);
    lemma_chain(0x0080, 16383, 16384, 0x8c67, 0x6203);
    lemma_chain(0x0100, 16383, 16384, 0x18cf, 0xc407);
    lemma_chain(0x0200, 16383, 16384, 0x319e, 0x880f);
    lemma_chain(0x0400, 16383, 16384, 0x633d, 0x101f);
    lemma_chain(0x0800, 16383, 16384, 0xc67a, 0x203f);
    lemma_chain(0x1000, 16383, 16384, 0x8cf5, 0x407f);
    lemma_chain(0x2000, 16383, 16384, 0x19eb, 0x80ff);
    lemma_chain(0x4000, 16383, 16384, 0x33d7, 0x01fe);
    lemma_chain(0x8000, 16383, 16384, 0x67af, 0x03fd);
    lemma_chain(0x0001, 32767, 32768, 0x07fa, 0x0001);
    lemma_chain(0x0002, 32767, 32768, 0x0ff4, 0x0002);
    lemma_chain(0x0004, 32767, 32768, 0x1812, 0x0004);
    lemma_chain(0x0008, 32767, 32768, 0x37de, 0x0008);
    lemma_chain(0x0010, 32767, 32768, 0x6fbd, 0x0010);
    lemma_chain(0x0020, 32767, 32768, 0xd880, 0x0020);
    lemma_chain(0x0040, 32767, 32768, 0xb101, 0x0040);
    lemma_chain(0x0080, 32767, 32768, 0x6203, 0x0080);
    lemma_chain(0x0100, 32767, 32768, 0xc407, 0x0100);
    lemma_chain(0x0200, 32767, 32768, 0x880f, 0x0200);
    lemma_chain(0x0400, 32767, 32768, 0x101f, 0x0400);
    lemma_chain(0x0800, 32767, 32768, 0x203f, 0x0800);
    lemma_chain(0x1000, 32767, 32768, 0x407f, 0x1000);
    lemma_chain(0x2000, 32767, 32768, 0x80ff, 0x2000);
    lemma_chain(0x4000, 32767, 32768, 0x01fe, 0x4000);
    lemma_chain(0x8000, 32767, 32768, 0x03fd, 0x8000);
    assert forall|x: u16| #[trigger] lfsr_iter(x, 65535) == lin16(0x0001, 0x0002, 0x0004, 0x0008, 0x0010, 0x0020, 0x0040, 0x0080, 0x0100, 0x0200, 0x0400, 0x0800, 0x1000, 0x2000, 0x4000, 0x8000, x) by {
        lemma_iter_as_map(x, 65535);
    }
}

/// 255 steps as a linear map.
#[verifier::rlimit(100)]
proof fn lemma_steps_255()
    ensures
        forall|x: u16| #[trigger] lfsr_iter(x, 255) == lin16(0x4601, 0x8c02, 0x5e05, 0xfa0a, 0xf414, 0xae28, 0x5c51, 0xb8a3, 0x7146, 0xe28c, 0xc518, 0x8a30, 0x1460, 0x28c0, 0x5180, 0xa300, x),
{
    lemma_powers_are_steps();
    lemma_table_full();
    lemma_chain(0x0001, 1, 2, 0x8000, 0x2000);
    lemma_chain(0x0002, 1, 2, 0x0001, 0x4000);
    lemma_chain(0x0004, 1, 2, 0x8002, 0xa000);
    lemma_chain(0x0008, 1, 2, 0x8004, 0x6001);
    lemma_chain(0x0010, 1, 2, 0x0008, 0xc002);
    lemma_chain(0x0020, 1, 2, 0x8010, 0xa004);
    lemma_chain(0x0040, 1, 2, 0x0020, 0x4008);
    lemma_chain(0x0080, 1, 2, 0x0040, 0x8010);
    lemma_chain(0x0100, 1, 2, 0x0080, 0x0020);
    lemma_chain(0x0200, 1, 2, 0x0100, 0x0040);
    lemma_chain(0x0400, 1, 2, 0x0200, 0x0080);
    lemma_chain(0x0800, 1, 2, 0x0400, 0x0100);
    lemma_chain(0x1000, 1, 2, 0x0800, 0x0200);
    lemma_chain(0x2000, 1, 2, 0x1000, 0x0400);
    lemma_chain(0x4000, 1, 2, 0x2000, 0x0800);
    lemma_chain(0x8000, 1, 2, 0x4000, 0x1000);
    lemma_chain(0x0001, 3, 4, 0x2000, 0x0200);
    lemma_chain(0x0002, 3, 4, 0x4000, 0x0400);
    lemma_chain(0x0004, 3, 4, 0xa000, 0x0a00);
    lemma_chain(0x0008, 3, 4, 0x6001, 0x1600);
    lemma_chain(0x0010, 3, 4, 0xc002, 0x2c00);
    lemma_chain(0x0020, 3, 4, 0xa004, 0x5a00);
    lemma_chain(0x0040, 3, 4, 0x4008, 0xb400);
    lemma_chain(0x0080, 3, 4, 0x8010, 0x6801);
    lemma_chain(0x0100, 3, 4, 0x0020, 0xd002);
    lemma_chain(0x0200, 3, 4, 0x0040, 0xa004);
    lemma_chain(0x0400, 3, 4, 0x0080, 0x4008);
    lemma_chain(0x0800, 3, 4, 0x0100, 0x8010);
    lemma_chain(0x1000, 3, 4, 0x0200, 0x0020);
    lemma_chain(0x2000, 3, 4, 0x0400, 0x0040);
    lemma_chain(0x4000, 3, 4, 0x0800, 0x0080);
    lemma_chain(0x8000, 3, 4, 0x1000, 0x0100);
    lemma_chain(0x0001, 7, 8, 0x0200, 0xd002);
    lemma_chain(0x0002, 7, 8, 0x0400, 0xa004);
    lemma_chain(0x0004, 7, 8, 0x0a00, 0x900a);
    lemma_chain(0x0008, 7, 8, 0x1600, 0xf016);
    lemma_chain(0x0010, 7, 8, 0x2c00, 0xe02c);
    lemma_chain(0x0020, 7, 8, 0x5a00, 0x105a);
    lemma_chain(0x0040, 7, 8, 0xb400, 0x20b4);
    lemma_chain(0x0080, 7, 8, 0x6801, 0x4168);
    lemma_chain(0x0100, 7, 8, 0xd002, 0x82d0);
    lemma_chain(0x0200, 7, 8, 0xa004, 0x05a0);
    lemma_chain(0x0400, 7, 8, 0x4008, 0x0b40);
    lemma_chain(0x0800, 7, 8, 0x8010, 0x1680);
    lemma_chain(0x1000, 7, 8, 0x0020, 0x2d00);
    lemma_chain(0x2000, 7, 8, 0x0040, 0x5a00);
    lemma_chain(0x4000, 7, 8, 0x0080, 0xb400);
    lemma_chain(0x8000, 7, 8, 0x0100, 0x6801);
    lemma_chain(0x0001, 15, 16, 0xd002, 0x2882);
    lemma_chain(0x0002, 15, 16, 0xa004, 0x5105);
    lemma_chain(0x0004, 15, 16, 0x900a, 0x8a89);
    lemma_chain(0x0008, 15, 16, 0xf016, 0x3d91);
    lemma_chain(0x0010, 15, 16, 0xe02c, 0x7b23);
    lemma_chain(0x0020, 15, 16, 0x105a, 0xdec5);
    lemma_chain(0x0040, 15, 16, 0x20b4, 0xbd8a);
    lemma_chain(0x0080, 15, 16, 0x4168, 0x7b14);
    lemma_chain(0x0100, 15, 16, 0x82d0, 0xf628);
    lemma_chain(0x0200, 15, 16, 0x05a0, 0xec51);
    lemma_chain(0x0400, 15, 16, 0x0b40, 0xd8a2);
    lemma_chain(0x0800, 15, 16, 0x1680, 0xb144);
    lemma_chain(0x1000, 15, 16, 0x2d00, 0x6288);
    lemma_chain(0x2000, 15, 16, 0x5a00, 0xc510);
    lemma_chain(0x4000, 15, 16, 0xb400, 0x8a20);
    lemma_chain(0x8000, 15, 16, 0x6801, 0x1441);
    lemma_chain(0x0001, 31, 32, 0x2882, 0x2f22);
    lemma_chain(0x0002, 31, 32, 0x5105, 0x5e45);
    lemma_chain(0x0004, 31, 32, 0x8a89, 0x93a9);
    lemma_chain(0x0008, 31, 32, 0x3d91, 0x0871);
    lemma_chain(0x0010, 31, 32, 0x7b23, 0x10e3);
    lemma_chain(0x0020, 31, 32, 0xdec5, 0x0ee5);
    lemma_chain(0x0040, 31, 32, 0xbd8a, 0x1dcb);
    lemma_chain(0x0080, 31, 32, 0x7b14, 0x3b97);
    lemma_chain(0x0100, 31, 32, 0xf628, 0x772f);
    lemma_chain(0x0200, 31, 32, 0xec51, 0xee5e);
    lemma_chain(0x0400, 31, 32, 0xd8a2, 0xdcbc);
    lemma_chain(0x0800, 31, 32, 0xb144, 0xb979);
    lemma_chain(0x1000, 31, 32, 0x6288, 0x72f2);
    lemma_chain(0x2000, 31, 32, 0xc510, 0xe5e4);
    lemma_chain(0x4000, 31, 32, 0x8a20, 0xcbc8);
    lemma_chain(0x8000, 31, 32, 0x1441, 0x9791);
    lemma_chain(0x0001, 63, 64, 0x2f22, 0xa4f8);
    lemma_chain(0x0002, 63, 64, 0x5e45, 0x49f0);
    lemma_chain(0x0004, 63, 64, 0x93a9, 0x3719);
    lemma_chain(0x0008, 63, 64, 0x0871, 0xcacb);
    lemma_chain(0x0010, 63, 64, 0x10e3, 0x9596);
    lemma_chain(0x0020, 63, 64, 0x0ee5, 0x8fd4);
    lemma_chain(0x0040, 63, 64, 0x1dcb, 0x1fa9);
    lemma_chain(0x0080, 63, 64, 0x3b97, 0x3f52);
    lemma_chain(0x0100, 63, 64, 0x772f, 0x7ea4);
    lemma_chain(0x0200, 63, 64, 0xee5e, 0xfd49);
    lemma_chain(0x0400, 63, 64, 0xdcbc, 0xfa93);
    lemma_chain(0x0800, 63, 64, 0xb979, 0xf527);
    lemma_chain(0x1000, 63, 64, 0x72f2, 0xea4f);
    lemma_chain(0x2000, 63, 64, 0xe5e4, 0xd49f);
    lemma_chain(0x4000, 63, 64, 0xcbc8, 0xa93e);
    lemma_chain(0x8000, 63, 64, 0x9791, 0x527c);
    lemma_chain(0x0001, 127, 128, 0xa4f8, 0x4601);
    lemma_chain(0x0002, 127, 128, 0x49f0, 0x8c02);
    lemma_chain(0x0004, 127, 128, 0x3719, 0x5e05);
    lemma_chain(0x0008, 127, 128, 0xcacb, 0xfa0a);
    lemma_chain(0x0010, 127, 128, 0x9596, 0xf414);
    lemma_chain(0x0020, 127, 128, 0x8fd4, 0xae28);
    lemma_chain(0x0040, 127, 128, 0x1fa9, 0x5c51);
    lemma_chain(0x0080, 127, 128, 0x3f52, 0xb8a3);
    lemma_chain(0x0100, 127, 128, 0x7ea4, 0x7146);
    lemma_chain(0x0200, 127, 128, 0xfd49, 0xe28c);
    lemma_chain(0x0400, 127, 128, 0xfa93, 0xc518);
    lemma_chain(0x0800, 127, 128, 0xf527, 0x8a30);
    lemma_chain(0x1000, 127, 128, 0xea4f, 0x1460);
    lemma_chain(0x2000, 127, 128, 0xd49f, 0x28c0);
    lemma_chain(0x4000, 127, 128, 0xa93e, 0x5180);
    lemma_chain(0x8000, 127, 128, 0x527c, 0xa300);
    assert forall|x: u16| #[trigger] lfsr_iter(x, 255) == lin16(0x4601, 0x8c02, 0x5e05, 0xfa0a, 0xf414, 0xae28, 0x5c51, 0xb8a3, 0x7146, 0xe28c, 0xc518, 0x8a30, 0x1460, 0x28c0, 0x5180, 0xa300, x) by {
        lemma_iter_as_map(x, 255);
    }
}

/// 21845 steps as a linear map.
#[verifier::rlimit(100)]
proof fn lemma_steps_21845()
    ensures
        forall|x: u16| #[trigger] lfsr_iter(x, 21845) == lin16(0x366a, 0x6cd5, 0xefc0, 0xe9eb, 0xd3d6, 0x91c6, 0x238d, 0x471b, 0x8e36, 0x1c6c, 0x38d9, 0x71b3, 0xe366, 0xc6cd, 0x8d9a, 0x1b35, x),
{
    lemma_powers_are_steps();
    lemma_table_21845();
    lemma_chain(0x0001, 1, 4, 0x8000, 0x0800);
    lemma_chain(0x0002, 1, 4, 0x0001, 0x1000);
    lemma_chain(0x0004, 1, 4, 0x8002, 0x2800);
    lemma_chain(0x0008, 1, 4, 0x8004, 0x5800);
    lemma_chain(0x0010, 1, 4, 0x0008, 0xb000);
    lemma_chain(0x0020, 1, 4, 0x8010, 0x6801);
    lemma_chain(0x0040, 1, 4, 0x0020, 0xd002);
    lemma_chain(0x0080, 1, 4, 0x0040, 0xa004);
    lemma_chain(0x0100, 1, 4, 0x0080, 0x4008);
    lemma_chain(0x0200, 1, 4, 0x0100, 0x8010);
    lemma_chain(0x0400, 1, 4, 0x0200, 0x0020);
    lemma_chain(0x0800, 1, 4, 0x0400, 0x0040);
    lemma_chain(0x1000, 1, 4, 0x0800, 0x0080);
    lemma_chain(0x2000, 1, 4, 0x1000, 0x0100);
    lemma_chain(0x4000, 1, 4, 0x2000, 0x0200);
    lemma_chain(0x8000, 1, 4, 0x4000, 0x0400);
    lemma_chain(0x0001, 5, 16, 0x0800, 0x0b40);
    lemma_chain(0x0002, 5, 16, 0x1000, 0x1680);
    lemma_chain(0x0004, 5, 16, 0x2800, 0x2640);
    lemma_chain(0x0008, 5, 16, 0x5800, 0x47c0);
    lemma_chain(0x0010, 5, 16, 0xb000, 0x8f80);
    lemma_chain(0x0020, 5, 16, 0x6801, 0x1441);
    lemma_chain(0x0040, 5, 16, 0xd002, 0x2882);
    lemma_chain(0x0080, 5, 16, 0xa004, 0x5105);
    lemma_chain(0x0100, 5, 16, 0x4008, 0xa20b);
    lemma_chain(0x0200, 5, 16, 0x8010, 0x4416);
    lemma_chain(0x0400, 5, 16, 0x0020, 0x882d);
    lemma_chain(0x0800, 5, 16, 0x0040, 0x105a);
    lemma_chain(0x1000, 5, 16, 0x0080, 0x20b4);
    lemma_chain(0x2000, 5, 16, 0x0100, 0x4168);
    lemma_chain(0x4000, 5, 16, 0x0200, 0x82d0);
    lemma_chain(0x8000, 5, 16, 0x0400, 0x05a0);
    lemma_chain(0x0001, 21, 64, 0x0b40, 0x9ee1);
    lemma_chain(0x0002, 21, 64, 0x1680, 0x3dc3);
    lemma_chain(0x0004, 21, 64, 0x2640, 0xe566);
    lemma_chain(0x0008, 21, 64, 0x47c0, 0x542c);
    lemma_chain(0x0010, 21, 64, 0x8f80, 0xa859);
    lemma_chain(0x0020, 21, 64, 0x1441, 0xce53);
    lemma_chain(0x0040, 21, 64, 0x2882, 0x9ca7);
    lemma_chain(0x0080, 21, 64, 0x5105, 0x394f);
    lemma_chain(0x0100, 21, 64, 0xa20b, 0x729e);
    lemma_chain(0x0200, 21, 64, 0x4416, 0xe53d);
    lemma_chain(0x0400, 21, 64, 0x882d, 0xca7b);
    lemma_chain(0x0800, 21, 64, 0x105a, 0x94f7);
    lemma_chain(0x1000, 21, 64, 0x20b4, 0x29ee);
    lemma_chain(0x2000, 21, 64, 0x4168, 0x53dc);
    lemma_chain(0x4000, 21, 64, 0x82d0, 0xa7b8);
    lemma_chain(0x8000, 21, 64, 0x05a0, 0x4f70);
    lemma_chain(0x0001, 85, 256, 0x9ee1, 0x8b0f);
    lemma_chain(0x0002, 85, 256, 0x3dc3, 0x161f);
    lemma_chain(0x0004, 85, 256, 0xe566, 0xa730);
    lemma_chain(0x0008, 85, 256, 0x542c, 0xc56f);
    lemma_chain(0x0010, 85, 256, 0xa859, 0x8adf);
    lemma_chain(0x0020, 85, 256, 0xce53, 0x9eb1);
    lemma_chain(0x0040, 85, 256, 0x9ca7, 0x3d62);
    lemma_chain(0x0080, 85, 256, 0x394f, 0x7ac5);
    lemma_chain(0x0100, 85, 256, 0x729e, 0xf58b);
    lemma_chain(0x0200, 85, 256, 0xe53d, 0xeb16);
    lemma_chain(0x0400, 85, 256, 0xca7b, 0xd62c);
    lemma_chain(0x0800, 85, 256, 0x94f7, 0xac58);
    lemma_chain(0x1000, 85, 256, 0x29ee, 0x58b0);
    lemma_chain(0x2000, 85, 256, 0x53dc, 0xb161);
    lemma_chain(0x4000, 85, 256, 0xa7b8, 0x62c3);
    lemma_chain(0x8000, 85, 256, 0x4f70, 0xc587);
    lemma_chain(0x0001, 341, 1024, 0x8b0f, 0xa006);
    lemma_chain(0x0002, 341, 1024, 0x161f, 0x400d);
    lemma_chain(0x0004, 341, 1024, 0xa730, 0x201d);
    lemma_chain(0x0008, 341, 1024, 0xc56f, 0xe03c);
    lemma_chain(0x0010, 341, 1024, 0x8adf, 0xc079);
    lemma_chain(0x0020, 341, 1024, 0x9eb1, 0x20f4);
    lemma_chain(0x0040, 341, 1024, 0x3d62, 0x41e8);
    lemma_chain(0x0080, 341, 1024, 0x7ac5, 0x83d0);
    lemma_chain(0x0100, 341, 1024, 0xf58b, 0x07a0);
    lemma_chain(0x0200, 341, 1024, 0xeb16, 0x0f40);
    lemma_chain(0x0400, 341, 1024, 0xd62c, 0x1e80);
    lemma_chain(0x0800, 341, 1024, 0xac58, 0x3d00);
    lemma_chain(0x1000, 341, 1024, 0x58b0, 0x7a00);
    lemma_chain(0x2000, 341, 1024, 0xb161, 0xf400);
    lemma_chain(0x4000, 341, 1024, 0x62c3, 0xe801);
    lemma_chain(0x8000, 341, 1024, 0xc587, 0xd003);
    lemma_chain(0x0001, 1365, 4096, 0xa006, 0xc8be);
    lemma_chain(0x0002, 1365, 4096, 0x400d, 0x917c);
    lemma_chain(0x0004, 1365, 4096, 0x201d, 0xea47);
    lemma_chain(0x0008, 1365, 4096, 0xe03c, 0x1c31);
    lemma_chain(0x0010, 1365, 4096, 0xc079, 0x3863);
    lemma_chain(0x0020, 1365, 4096, 0x20f4, 0xb879);
    lemma_chain(0x0040, 1365, 4096, 0x41e8, 0x70f2);
    lemma_chain(0x0080, 1365, 4096, 0x83d0, 0xe1e4);
    lemma_chain(0x0100, 1365, 4096, 0x07a0, 0xc3c8);
    lemma_chain(0x0200, 1365, 4096, 0x0f40, 0x8791);
    lemma_chain(0x0400, 1365, 4096, 0x1e80, 0x0f22);
    lemma_chain(0x0800, 1365, 4096, 0x3d00, 0x1e45);
    lemma_chain(0x1000, 1365, 4096, 0x7a00, 0x3c8b);
    lemma_chain(0x2000, 1365, 4096, 0xf400, 0x7917);
    lemma_chain(0x4000, 1365, 4096, 0xe801, 0xf22f);
    lemma_chain(0x8000, 1365, 4096, 0xd003, 0xe45f);
    lemma_chain(0x0001, 5461, 16384, 0xc8be, 0x366a);
    lemma_chain(0x0002, 5461, 16384, 0x917c, 0x6cd5);
    lemma_chain(0x0004, 5461, 16384, 0xea47, 0xefc0);
    lemma_chain(0x0008, 5461, 16384, 0x1c31, 0xe9eb);
    lemma_chain(0x0010, 5461, 16384, 0x3863, 0xd3d6);
    lemma_chain(0x0020, 5461, 16384, 0xb879, 0x91c6);
    lemma_chain(0x0040, 5461, 16384, 0x70f2, 0x238d);
    lemma_chain(0x0080, 5461, 16384, 0xe1e4, 0x471b);
    lemma_chain(0x0100, 5461, 16384, 0xc3c8, 0x8e36);
    lemma_chain(0x0200, 5461, 16384, 0x8791, 0x1c6c);
    lemma_chain(0x0400, 5461, 16384, 0x0f22, 0x38d9);
    lemma_chain(0x0800, 5461, 16384, 0x1e45, 0x71b3);
    lemma_chain(0x1000, 5461, 16384, 0x3c8b, 0xe366);
    lemma_chain(0x2000, 5461, 16384, 0x7917, 0xc6cd);
    lemma_chain(0x4000, 5461, 16384, 0xf22f, 0x8d9a);
    lemma_chain(0x8000, 5461, 16384, 0xe45f, 0x1b35);
    assert forall|x: u16| #[trigger] lfsr_iter(x, 21845) == lin16(0x366a, 0x6cd5, 0xefc0, 0xe9eb, 0xd3d6, 0x91c6, 0x238d, 0x471b, 0x8e36, 0x1c6c, 0x38d9, 0x71b3, 0xe366, 0xc6cd, 0x8d9a, 0x1b35, x) by {
        lemma_iter_as_map(x, 21845);
    }
}

/// 13107 steps as a linear map.
#[verifier::rlimit(100)]
proof fn lemma_steps_13107()
    ensures
        forall|x: u16| #[trigger] lfsr_iter(x, 13107) == lin16(0x6ec2, 0xdd85, 0xd5c8, 0xc553, 0x8aa7, 0x7b8d, 0xf71b, 0xee37, 0xdc6e, 0xb8dd, 0x71bb, 0xe376, 0xc6ec, 0x8dd8, 0x1bb0, 0x3761, x),
{
    lemma_powers_are_steps();
    lemma_table_13107();
    lemma_chain(0x0001, 1, 2, 0x8000, 0x2000);
    lemma_chain(0x0002, 1, 2, 0x0001, 0x4000);
    lemma_chain(0x0004, 1, 2, 0x8002, 0xa000);
    lemma_chain(0x0008, 1, 2, 0x8004, 0x6001);
    lemma_chain(0x0010, 1, 2, 0x0008, 0xc002);
    lemma_chain(0x0020, 1, 2, 0x8010, 0xa004);
    lemma_chain(0x0040, 1, 2, 0x0020, 0x4008);
    lemma_chain(0x0080, 1, 2, 0x0040, 0x8010);
    lemma_chain(0x0100, 1, 2, 0x0080, 0x0020);
    lemma_chain(0x0200, 1, 2, 0x0100, 0x0040);
    lemma_chain(0x0400, 1, 2, 0x0200, 0x0080);
    lemma_chain(0x0800, 1, 2, 0x0400, 0x0100);
    lemma_chain(0x1000, 1, 2, 0x0800, 0x0200);
    lemma_chain(0x2000, 1, 2, 0x1000, 0x0400);
    lemma_chain(0x4000, 1, 2, 0x2000, 0x0800);
    lemma_chain(0x8000, 1, 2, 0x4000, 0x1000);
    lemma_chain(0x0001, 3, 16, 0x2000, 0x2d00);
    lemma_chain(0x0002, 3, 16, 0x4000, 0x5a00);
    lemma_chain(0x0004, 3, 16, 0xa000, 0x9900);
    lemma_chain(0x0008, 3, 16, 0x6001, 0x1f01);
    lemma_chain(0x0010, 3, 16, 0xc002, 0x3e02);
    lemma_chain(0x0020, 3, 16, 0xa004, 0x5105);
    lemma_chain(0x0040, 3, 16, 0x4008, 0xa20b);
    lemma_chain(0x0080, 3, 16, 0x8010, 0x4416);
    lemma_chain(0x0100, 3, 16, 0x0020, 0x882d);
    lemma_chain(0x0200, 3, 16, 0x0040, 0x105a);
    lemma_chain(0x0400, 3, 16, 0x0080, 0x20b4);
    lemma_chain(0x0800, 3, 16, 0x0100, 0x4168);
    lemma_chain(0x1000, 3, 16, 0x0200, 0x82d0);
    lemma_chain(0x2000, 3, 16, 0x0400, 0x05a0);
    lemma_chain(0x4000, 3, 16, 0x0800, 0x0b40);
    lemma_chain(0x8000, 3, 16, 0x1000, 0x1680);
    lemma_chain(0x0001, 19, 32, 0x2d00, 0x2d6f);
    lemma_chain(0x0002, 19, 32, 0x5a00, 0x5ade);
    lemma_chain(0x0004, 19, 32, 0x9900, 0x98d2);
    lemma_chain(0x0008, 19, 32, 0x1f01, 0x1cca);
    lemma_chain(0x0010, 19, 32, 0x3e02, 0x3995);
    lemma_chain(0x0020, 19, 32, 0x5105, 0x5e45);
    lemma_chain(0x0040, 19, 32, 0xa20b, 0xbc8b);
    lemma_chain(0x0080, 19, 32, 0x4416, 0x7916);
    lemma_chain(0x0100, 19, 32, 0x882d, 0xf22d);
    lemma_chain(0x0200, 19, 32, 0x105a, 0xe45a);
    lemma_chain(0x0400, 19, 32, 0x20b4, 0xc8b5);
    lemma_chain(0x0800, 19, 32, 0x4168, 0x916b);
    lemma_chain(0x1000, 19, 32, 0x82d0, 0x22d6);
    lemma_chain(0x2000, 19, 32, 0x05a0, 0x45ad);
    lemma_chain(0x4000, 19, 32, 0x0b40, 0x8b5b);
    lemma_chain(0x8000, 19, 32, 0x1680, 0x16b7);
    lemma_chain(0x0001, 51, 256, 0x2d6f, 0x456d);
    lemma_chain(0x0002, 51, 256, 0x5ade, 0x8adb);
    lemma_chain(0x0004, 51, 256, 0x98d2, 0x50da);
    lemma_chain(0x0008, 51, 256, 0x1cca, 0xe4d9);
    lemma_chain(0x0010, 51, 256, 0x3995, 0xc9b2);
    lemma_chain(0x0020, 51, 256, 0x5e45, 0xd608);
    lemma_chain(0x0040, 51, 256, 0xbc8b, 0xac11);
    lemma_chain(0x0080, 51, 256, 0x7916, 0x5822);
    lemma_chain(0x0100, 51, 256, 0xf22d, 0xb045);
    lemma_chain(0x0200, 51, 256, 0xe45a, 0x608a);
    lemma_chain(0x0400, 51, 256, 0xc8b5, 0xc115);
    lemma_chain(0x0800, 51, 256, 0x916b, 0x822b);
    lemma_chain(0x1000, 51, 256, 0x22d6, 0x0456);
    lemma_chain(0x2000, 51, 256, 0x45ad, 0x08ad);
    lemma_chain(0x4000, 51, 256, 0x8b5b, 0x115b);
    lemma_chain(0x8000, 51, 256, 0x16b7, 0x22b6);
    lemma_chain(0x0001, 307, 512, 0x456d, 0x743f);
    lemma_chain(0x0002, 307, 512, 0x8adb, 0xe87f);
    lemma_chain(0x0004, 307, 512, 0x50da, 0xa4c1);
    lemma_chain(0x0008, 307, 512, 0xe4d9, 0x3dbc);
    lemma_chain(0x0010, 307, 512, 0xc9b2, 0x7b78);
    lemma_chain(0x0020, 307, 512, 0xd608, 0x82ce);
    lemma_chain(0x0040, 307, 512, 0xac11, 0x059d);
    lemma_chain(0x0080, 307, 512, 0x5822, 0x0b3a);
    lemma_chain(0x0100, 307, 512, 0xb045, 0x1674);
    lemma_chain(0x0200, 307, 512, 0x608a, 0x2ce8);
    lemma_chain(0x0400, 307, 512, 0xc115, 0x59d0);
    lemma_chain(0x0800, 307, 512, 0x822b, 0xb3a1);
    lemma_chain(0x1000, 307, 512, 0x0456, 0x6743);
    lemma_chain(0x2000, 307, 512, 0x08ad, 0xce87);
    lemma_chain(0x4000, 307, 512, 0x115b, 0x9d0f);
    lemma_chain(0x8000, 307, 512, 0x22b6, 0x3a1f);
    lemma_chain(0x0001, 819, 4096, 0x743f, 0x6f1d);
    lemma_chain(0x0002, 819, 4096, 0xe87f, 0xde3a);
    lemma_chain(0x0004, 819, 4096, 0xa4c1, 0xd368);
    lemma_chain(0x0008, 819, 4096, 0x3dbc, 0xc9cc);
    lemma_chain(0x0010, 819, 4096, 0x7b78, 0x9398);
    lemma_chain(0x0020, 819, 4096, 0x82ce, 0x482d);
    lemma_chain(0x0040, 819, 4096, 0x059d, 0x905b);
    lemma_chain(0x0080, 819, 4096, 0x0b3a, 0x20b7);
    lemma_chain(0x0100, 819, 4096, 0x1674, 0x416f);
    lemma_chain(0x0200, 819, 4096, 0x2ce8, 0x82de);
    lemma_chain(0x0400, 819, 4096, 0x59d0, 0x05bc);
    lemma_chain(0x0800, 819, 4096, 0xb3a1, 0x0b78);
    lemma_chain(0x1000, 819, 4096, 0x6743, 0x16f1);
    lemma_chain(0x2000, 819, 4096, 0xce87, 0x2de3);
    lemma_chain(0x4000, 819, 4096, 0x9d0f, 0x5bc7);
    lemma_chain(0x8000, 819, 4096, 0x3a1f, 0xb78e);
    lemma_chain(0x0001, 4915, 8192, 0x6f1d, 0x6ec2);
    lemma_chain(0x0002, 4915, 8192, 0xde3a, 0xdd85);
    lemma_chain(0x0004, 4915, 8192, 0xd368, 0xd5c8);
    lemma_chain(0x0008, 4915, 8192, 0xc9cc, 0xc553);
    lemma_chain(0x0010, 4915, 8192, 0x9398, 0x8aa7);
    lemma_chain(0x0020, 4915, 8192, 0x482d, 0x7b8d);
    lemma_chain(0x0040, 4915, 8192, 0x905b, 0xf71b);
    lemma_chain(0x0080, 4915, 8192, 0x20b7, 0xee37);
    lemma_chain(0x0100, 4915, 8192, 0x416f, 0xdc6e);
    lemma_chain(0x0200, 4915, 8192, 0x82de, 0xb8dd);
    lemma_chain(0x0400, 4915, 8192, 0x05bc, 0x71bb);
    lemma_chain(0x0800, 4915, 8192, 0x0b78, 0xe376);
    lemma_chain(0x1000, 4915, 8192, 0x16f1, 0xc6ec);
    lemma_chain(0x2000, 4915, 8192, 0x2de3, 0x8dd8);
    lemma_chain(0x4000, 4915, 8192, 0x5bc7, 0x1bb0);
    lemma_chain(0x8000, 4915, 8192, 0xb78e, 0x3761);
    assert forall|x: u16| #[trigger] lfsr_iter(x, 13107) == lin16(0x6ec2, 0xdd85, 0xd5c8, 0xc553, 0x8aa7, 0x7b8d, 0xf71b, 0xee37, 0xdc6e, 0xb8dd, 0x71bb, 0xe376, 0xc6ec, 0x8dd8, 0x1bb0, 0x3761, x) by {
        lemma_iter_as_map(x, 13107);
    }
}

/// 3855 steps as a linear map.
#[verifier::rlimit(100)]
proof fn lemma_steps_3855()
    ensures
        forall|x: u16| #[trigger] lfsr_iter(x, 3855) == lin16(0xca6a, 0x94d4, 0xe3c3, 0x0dec, 0x1bd9, 0xfdd9, 0xfbb2, 0xf765, 0xeeca, 0xdd94, 0xbb29, 0x7653, 0xeca6, 0xd94d, 0xb29a, 0x6535, x),
{
    lemma_powers_are_steps();
    lemma_table_3855();
    lemma_chain(0x0001, 1, 2, 0x8000, 0x2000);
    lemma_chain(0x0002, 1, 2, 0x0001, 0x4000);
    lemma_chain(0x0004, 1, 2, 0x8002, 0xa000);
    lemma_chain(0x0008, 1, 2, 0x8004, 0x6001);
    lemma_chain(0x0010, 1, 2, 0x0008, 0xc002);
    lemma_chain(0x0020, 1, 2, 0x8010, 0xa004);
    lemma_chain(0x0040, 1, 2, 0x0020, 0x4008);
    lemma_chain(0x0080, 1, 2, 0x0040, 0x8010);
    lemma_chain(0x0100, 1, 2, 0x0080, 0x0020);
    lemma_chain(0x0200, 1, 2, 0x0100, 0x0040);
    lemma_chain(0x0400, 1, 2, 0x0200, 0x0080);
    lemma_chain(0x0800, 1, 2, 0x0400, 0x0100);
    lemma_chain(0x1000, 1, 2, 0x0800, 0x0200);
    lemma_chain(0x2000, 1, 2, 0x1000, 0x0400);
    lemma_chain(0x4000, 1, 2, 0x2000, 0x0800);
    lemma_chain(0x8000, 1, 2, 0x4000, 0x1000);
    lemma_chain(0x0001, 3, 4, 0x2000, 0x0200);
    lemma_chain(0x0002, 3, 4, 0x4000, 0x0400);
    lemma_chain(0x0004, 3, 4, 0xa000, 0x0a00);
    lemma_chain(0x0008, 3, 4, 0x6001, 0x1600);
    lemma_chain(0x0010, 3, 4, 0xc002, 0x2c00);
    lemma_chain(0x0020, 3, 4, 0xa004, 0x5a00);
    lemma_chain(0x0040, 3, 4, 0x4008, 0xb400);
    lemma_chain(0x0080, 3, 4, 0x8010, 0x6801);
    lemma_chain(0x0100, 3, 4, 0x0020, 0xd002);
    lemma_chain(0x0200, 3, 4, 0x0040, 0xa004);
    lemma_chain(0x0400, 3, 4, 0x0080, 0x4008);
    lemma_chain(0x0800, 3, 4, 0x0100, 0x8010);
    lemma_chain(0x1000, 3, 4, 0x0200, 0x0020);
    lemma_chain(0x2000, 3, 4, 0x0400, 0x0040);
    lemma_chain(0x4000, 3, 4, 0x0800, 0x0080);
    lemma_chain(0x8000, 3, 4, 0x1000, 0x0100);
    lemma_chain(0x0001, 7, 8, 0x0200, 0xd002);
    lemma_chain(0x0002, 7, 8, 0x0400, 0xa004);
    lemma_chain(0x0004, 7, 8, 0x0a00, 0x900a);
    lemma_chain(0x0008, 7, 8, 0x1600, 0xf016);
    lemma_chain(0x0010, 7, 8, 0x2c00, 0xe02c);
    lemma_chain(0x0020, 7, 8, 0x5a00, 0x105a);
    lemma_chain(0x0040, 7, 8, 0xb400, 0x20b4);
    lemma_chain(0x0080, 7, 8, 0x6801, 0x4168);
    lemma_chain(0x0100, 7, 8, 0xd002, 0x82d0);
    lemma_chain(0x0200, 7, 8, 0xa004, 0x05a0);
    lemma_chain(0x0400, 7, 8, 0x4008, 0x0b40);
    lemma_chain(0x0800, 7, 8, 0x8010, 0x1680);
    lemma_chain(0x1000, 7, 8, 0x0020, 0x2d00);
    lemma_chain(0x2000, 7, 8, 0x0040, 0x5a00);
    lemma_chain(0x4000, 7, 8, 0x0080, 0xb400);
    lemma_chain(0x8000, 7, 8, 0x0100, 0x6801);
    lemma_chain(0x0001, 15, 256, 0xd002, 0xb571);
    lemma_chain(0x0002, 15, 256, 0xa004, 0x6ae2);
    lemma_chain(0x0004, 15, 256, 0x900a, 0x60b4);
    lemma_chain(0x0008, 15, 256, 0xf016, 0x7419);
    lemma_chain(0x0010, 15, 256, 0xe02c, 0xe833);
    lemma_chain(0x0020, 15, 256, 0x105a, 0x6516);
    lemma_chain(0x0040, 15, 256, 0x20b4, 0xca2d);
    lemma_chain(0x0080, 15, 256, 0x4168, 0x945a);
    lemma_chain(0x0100, 15, 256, 0x82d0, 0x28b5);
    lemma_chain(0x0200, 15, 256, 0x05a0, 0x516a);
    lemma_chain(0x0400, 15, 256, 0x0b40, 0xa2d5);
    lemma_chain(0x0800, 15, 256, 0x1680, 0x45ab);
    lemma_chain(0x1000, 15, 256, 0x2d00, 0x8b57);
    lemma_chain(0x2000, 15, 256, 0x5a00, 0x16ae);
    lemma_chain(0x4000, 15, 256, 0xb400, 0x2d5c);
    lemma_chain(0x8000, 15, 256, 0x6801, 0x5ab8);
    lemma_chain(0x0001, 271, 512, 0xb571, 0x6803);
    lemma_chain(0x0002, 271, 512, 0x6ae2, 0xd007);
    lemma_chain(0x0004, 271, 512, 0x60b4, 0xc80c);
    lemma_chain(0x0008, 271, 512, 0x7419, 0xf81b);
    lemma_chain(0x0010, 271, 512, 0xe833, 0xf037);
    lemma_chain(0x0020, 271, 512, 0x6516, 0x886d);
    lemma_chain(0x0040, 271, 512, 0xca2d, 0x10da);
    lemma_chain(0x0080, 271, 512, 0x945a, 0x21b4);
    lemma_chain(0x0100, 271, 512, 0x28b5, 0x4368);
    lemma_chain(0x0200, 271, 512, 0x516a, 0x86d0);
    lemma_chain(0x0400, 271, 512, 0xa2d5, 0x0da0);
    lemma_chain(0x0800, 271, 512, 0x45ab, 0x1b40);
    lemma_chain(0x1000, 271, 512, 0x8b57, 0x3680);
    lemma_chain(0x2000, 271, 512, 0x16ae, 0x6d00);
    lemma_chain(0x4000, 271, 512, 0x2d5c, 0xda00);
    lemma_chain(0x8000, 271, 512, 0x5ab8, 0xb401);
    lemma_chain(0x0001, 783, 1024, 0x6803, 0x0ed3);
    lemma_chain(0x0002, 783, 1024, 0xd007, 0x1da6);
    lemma_chain(0x0004, 783, 1024, 0xc80c, 0x359f);
    lemma_chain(0x0008, 783, 1024, 0xf81b, 0x65ec);
    lemma_chain(0x0010, 783, 1024, 0xf037, 0xcbd9);
    lemma_chain(0x0020, 783, 1024, 0x886d, 0x9961);
    lemma_chain(0x0040, 783, 1024, 0x10da, 0x32c3);
    lemma_chain(0x0080, 783, 1024, 0x21b4, 0x6587);
    lemma_chain(0x0100, 783, 1024, 0x4368, 0xcb0e);
    lemma_chain(0x0200, 783, 1024, 0x86d0, 0x961d);
    lemma_chain(0x0400, 783, 1024, 0x0da0, 0x2c3b);
    lemma_chain(0x0800, 783, 1024, 0x1b40, 0x5876);
    lemma_chain(0x1000, 783, 1024, 0x3680, 0xb0ed);
    lemma_chain(0x2000, 783, 1024, 0x6d00, 0x61da);
    lemma_chain(0x4000, 783, 1024, 0xda00, 0xc3b4);
    lemma_chain(0x8000, 783, 1024, 0xb401, 0x8769);
    lemma_chain(0x0001, 1807, 2048, 0x0ed3, 0xca6a);
    lemma_chain(0x0002, 1807, 2048, 0x1da6, 0x94d4);
    lemma_chain(0x0004, 1807, 2048, 0x359f, 0xe3c3);
    lemma_chain(0x0008, 1807, 2048, 0x65ec, 0x0dec);
    lemma_chain(0x0010, 1807, 2048, 0xcbd9, 0x1bd9);
    lemma_chain(0x0020, 1807, 2048, 0x9961, 0xfdd9);
    lemma_chain(0x0040, 1807, 2048, 0x32c3, 0xfbb2);
    lemma_chain(0x0080, 1807, 2048, 0x6587, 0xf765);
    lemma_chain(0x0100, 1807, 2048, 0xcb0e, 0xeeca);
    lemma_chain(0x0200, 1807, 2048, 0x961d, 0xdd94);
    lemma_chain(0x0400, 1807, 2048, 0x2c3b, 0xbb29);
    lemma_chain(0x0800, 1807, 2048, 0x5876, 0x7653);
    lemma_chain(0x1000, 1807, 2048, 0xb0ed, 0xeca6);
    lemma_chain(0x2000, 1807, 2048, 0x61da, 0xd94d);
    lemma_chain(0x4000, 1807, 2048, 0xc3b4, 0xb29a);
    lemma_chain(0x8000, 1807, 2048, 0x8769, 0x6535);
    assert forall|x: u16| #[trigger] lfsr_iter(x, 3855) == lin16(0xca6a, 0x94d4, 0xe3c3, 0x0dec, 0x1bd9, 0xfdd9, 0xfbb2, 0xf765, 0xeeca, 0xdd94, 0xbb29, 0x7653, 0xeca6, 0xd94d, 0xb29a, 0x6535, x) by {
        lemma_iter_as_map(x, 3855);
    }
}

/// The identity map, as a linear map.
proof fn lemma_identity_map(x: u16)
    by (bit_vector)
    ensures
        lin16(0x0001, 0x0002, 0x0004, 0x0008, 0x0010, 0x0020, 0x0040, 0x0080, 0x0100, 0x0200, 0x0400, 0x0800, 0x1000, 0x2000, 0x4000, 0x8000, x) == x,
{
}

/// The map for 21845 steps fixes no nonzero state.
proof fn lemma_fixfree_21845(x: u16)
    by (bit_vector)
    requires
        x != 0,
    ensures
        lin16(0x366a, 0x6cd5, 0xefc0, 0xe9eb, 0xd3d6, 0x91c6, 0x238d, 0x471b, 0x8e36, 0x1c6c, 0x38d9, 0x71b3, 0xe366, 0xc6cd, 0x8d9a, 0x1b35, x) != x,
{
}

/// The map for 13107 steps fixes no nonzero state.
proof fn lemma_fixfree_13107(x: u16)
    by (bit_vector)
    requires
        x != 0,
    ensures
        lin16(0x6ec2, 0xdd85, 0xd5c8, 0xc553, 0x8aa7, 0x7b8d, 0xf71b, 0xee37, 0xdc6e, 0xb8dd, 0x71bb, 0xe376, 0xc6ec, 0x8dd8, 0x1bb0, 0x3761, x) != x,
{
}

/// The map for 3855 steps fixes no nonzero state.
proof fn lemma_fixfree_3855(x: u16)
    by (bit_vector)
    requires
        x != 0,
    ensures
        lin16(0xca6a, 0x94d4, 0xe3c3, 0x0dec, 0x1bd9, 0xfdd9, 0xfbb2, 0xf765, 0xeeca, 0xdd94, 0xbb29, 0x7653, 0xeca6, 0xd94d, 0xb29a, 0x6535, x) != x,
{
}

/// The map for 255 steps fixes no nonzero state.
proof fn lemma_fixfree_255(x: u16)
    by (bit_vector)
    requires
        x != 0,
    ensures
        lin16(0x4601, 0x8c02, 0x5e05, 0xfa0a, 0xf414, 0xae28, 0x5c51, 0xb8a3, 0x7146, 0xe28c, 0xc518, 0x8a30, 0x1460, 0x28c0, 0x5180, 0xa300, x) != x,
{
}

/// Coming back to `y` after `n` steps means coming back after any multiple of `n`.
proof fn lemma_return_multiple(y: u16, n: nat, q: nat)
    requires
        lfsr_iter(y, n) == y,
    ensures
        lfsr_iter(y, n * q) == y,
    decreases q,
{
    if q > 0 {
        let q1 = (q - 1) as nat;
        lemma_return_multiple(y, n, q1);
        let p = n * q1;
        assert(n * q == p + n) by (nonlinear_arith)
            requires
                q == q1 + 1,
                p == n * q1,
        ;
        lemma_iter_add(y, p, n);
    } else {
        assert(n * q == 0) by (nonlinear_arith)
            requires
                q == 0,
        ;
    }
}

/// Below any positive return time to `y` there is a least one.
proof fn lemma_least_return(y: u16, n: nat) -> (m: nat)
    requires
        n > 0,
        lfsr_iter(y, n) == y,
    ensures
        0 < m <= n,
        lfsr_iter(y, m) == y,
        forall|k: nat| 0 < k < m ==> #[trigger] lfsr_iter(y, k) != y,
    decreases n,
{
    if exists|k: nat| 0 < k < n && #[trigger] lfsr_iter(y, k) == y {
        let k = choose|k: nat| 0 < k < n && #[trigger] lfsr_iter(y, k) == y;
        lemma_least_return(y, k)
    } else {
        n
    }
}

/// Every return time to `y` is a multiple of the least one.
proof fn lemma_return_divisible(y: u16, m: nat, n: nat)
    requires
        m > 0,
        lfsr_iter(y, m) == y,
        forall|k: nat| 0 < k < m ==> #[trigger] lfsr_iter(y, k) != y,
        lfsr_iter(y, n) == y,
    ensures
        n % m == 0,
{
    let q = n / m;
    let r = n % m;
    vstd::arithmetic::div_mod::lemma_fundamental_div_mod(n as int, m as int);
    assert(m * q + r == n);
    lemma_return_multiple(y, m, q);
    lemma_iter_add(y, m * q, r);
    assert(lfsr_iter(y, r) == y);
}

/// Every factorisation of 65535 = 3 * 5 * 17 * 257 into `m * q` with `q > 1`
/// has one of those primes dividing `q`.
proof fn lemma_factor_65535(m: u32, q: u32)
    by (bit_vector)
    requires
        m <= 65535,
        q <= 65535,
        m * q == 65535,
        q > 1,
    ensures
        q % 3 == 0 || q % 5 == 0 || q % 17 == 0 || q % 257 == 0,
{
}

/// The register has maximal period: from any nonzero state, the states after
/// 1, 2, ..., 65535 steps are pairwise distinct (so they are all 65535
/// nonzero states) and the last is the start state again. Since each call of
/// `Lfsr::next` takes exactly one step, its k-th result is `lfsr_iter(s, k)`.
pub proof fn lemma_lfsr_maximal_period(s: u16)
    requires
        s != 0,
    ensures
        lfsr_iter(s, 65535) == s,
        forall|a: nat, b: nat| 1 <= a < b <= 65535 ==> #[trigger] lfsr_iter(s, a) != #[trigger] lfsr_iter(s, b),
{
    lemma_steps_65535();
    lemma_identity_map(s);
    assert forall|a: nat, b: nat| 1 <= a < b <= 65535 implies #[trigger] lfsr_iter(s, a) != #[trigger] lfsr_iter(s, b) by {
        if lfsr_iter(s, a) == lfsr_iter(s, b) {
            let y = lfsr_iter(s, a);
            lemma_iter_nonzero(s, a);
            let d = (b - a) as nat;
            lemma_iter_add(s, a, d);
            assert(lfsr_iter(y, d) == y);
            let m = lemma_least_return(y, d);
            lemma_identity_map(y);
            assert(lfsr_iter(y, 65535) == y);
            lemma_return_divisible(y, m, 65535);
            let q: nat = 65535nat / m;
            vstd::arithmetic::div_mod::lemma_fundamental_div_mod(65535, m as int);
            assert(m * q == 65535);
            assert(q > 1) by (nonlinear_arith)
                requires
                    m * q == 65535,
                    0 < m < 65535,
            ;
            assert(q <= 65535) by (nonlinear_arith)
                requires
                    m * q == 65535,
                    m >= 1,
            ;
            lemma_factor_65535(m as u32, q as u32);
            if q % 3 == 0 {
                let t = q / 3;
                assert(m * t == 21845) by (nonlinear_arith)
                    requires
                        m * q == 65535,
                        q % 3 == 0,
                        t == q / 3,
                ;
                lemma_return_multiple(y, m, t);
                lemma_steps_21845();
                lemma_fixfree_21845(y);
            } else if q % 5 == 0 {
                let t = q / 5;
                assert(m * t == 13107) by (nonlinear_arith)
                    requires
                        m * q == 65535,
                        q % 5 == 0,
                        t == q / 5,
                ;
                lemma_return_multiple(y, m, t);
                lemma_steps_13107();
                lemma_fixfree_13107(y);
            } else if q % 17 == 0 {
                let t = q / 17;
                assert(m * t == 3855) by (nonlinear_arith)
                    requires
                        m * q == 65535,
                        q % 17 == 0,
                        t == q / 17,
                ;
                lemma_return_multiple(y, m, t);
                lemma_steps_3855();
                lemma_fixfree_3855(y);
            } else {
                let t = q / 257;
                assert(m * t == 255) by (nonlinear_arith)
                    requires
                        m * q == 65535,
                        q % 257 == 0,
                        t == q / 257,
                ;
                lemma_return_multiple(y, m, t);
                lemma_steps_255();
                lemma_fixfree_255(y);
            }
        }
    }
}

} // verus!
