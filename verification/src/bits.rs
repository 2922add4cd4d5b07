//! Facts connecting the bit masks used by the bank controllers with plain
//! arithmetic, so that the contracts can be stated over integers.
use vstd::prelude::*;

verus! {

/// Masking a byte with `2^k - 1` keeps its remainder modulo `2^k`.
pub proof fn lemma_u8_masks(x: u8)
    ensures
        x & 0x01 == x % 2,
        x & 0x03 == x % 4,
        x & 0x07 == x % 8,
        x & 0x0F == x % 16,
        x & 0x1F == x % 32,
        x & 0x3F == x % 64,
        x & 0x7F == x % 128,
        x & 0xFF == x,
        (x & 0x08 == 0x08) == ((x / 8) % 2 == 1),
{
    assert((x & 0x08 == 0x08) == ((x / 8) % 2 == 1)) by (bit_vector);
    assert(x & 0x01 == x % 2 && x & 0x03 == x % 4 && x & 0x07 == x % 8 && x & 0x0F == x % 16
        && x & 0x1F == x % 32 && x & 0x3F == x % 64 && x & 0x7F == x % 128 && x & 0xFF == x)
        by (bit_vector);
}

/// How the HuC3 splits a command byte into its command and argument fields.
pub proof fn lemma_huc3_command(x: u8)
    ensures
        ((x & 0x7F) >> 4u8) & 0x07 == (x % 128) / 16,
        (x & 0x7F) & 0x0F == x % 16,
        (x & 0x7F) & 0x70 == ((x % 128) / 16) * 16,
        (x % 128) / 16 < 8,
{
    assert(((x & 0x7F) >> 4u8) & 0x07 == (x % 128) / 16 && (x & 0x7F) & 0x0F == x % 16 && (x
        & 0x7F) & 0x70 == ((x % 128) / 16) * 16) by (bit_vector);
}

/// How the HuC3 builds its reply from the command field and a result nibble.
pub proof fn lemma_huc3_response(f: u8, n: u8)
    requires
        f < 128,
        f % 16 == 0,
        n < 16,
    ensures
        (0x80 | f) | n == 0x80 + f + n,
{
    assert((0x80 | f) | n == 0x80 + f + n) by (bit_vector)
        requires
            f < 128,
            f % 16 == 0,
            n < 16,
    ;
}

/// How the HuC3 sets one nibble of its clock memory address.
pub proof fn lemma_huc3_address(a: u8, n: u8)
    requires
        n < 16,
    ensures
        (a & 0xF0) | n == (a / 16) * 16 + n,
        (a & 0x0F) | (n << 4u8) == a % 16 + n * 16,
{
    assert((a & 0xF0) | n == (a / 16) * 16 + n && (a & 0x0F) | (n << 4u8) == a % 16 + n * 16)
        by (bit_vector)
        requires
            n < 16,
    ;
}

/// The controllers decode a write address by its lines A13 to A15.
pub proof fn lemma_register_decode(addr: u32)
    ensures
        addr & 0xE000 == ((addr % 0x10000) / 0x2000) * 0x2000,
        addr & 0xF000 == ((addr % 0x10000) / 0x1000) * 0x1000,
{
    assert(addr & 0xE000 == ((addr % 0x10000) / 0x2000) * 0x2000
        && addr & 0xF000 == ((addr % 0x10000) / 0x1000) * 0x1000) by (bit_vector);
}

} // verus!
