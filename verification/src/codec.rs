//! The primitive codec: what number a run of bytes stands for under a byte order.
//!
//! The library only reads. The encoding direction exists as specification, so
//! that the decoders can be held against it.
use vstd::prelude::*;

verus! {

/// 256 to the power of `width`.
pub open spec fn pow256(width: nat) -> nat
    decreases width,
{
    if width == 0 {
        1
    } else {
        256 * pow256((width - 1) as nat)
    }
}

/// The number whose big-endian digits, base 256, are `bytes`.
pub open spec fn be_value(bytes: Seq<u8>) -> nat
    decreases bytes.len(),
{
    if bytes.len() == 0 {
        0
    } else {
        be_value(bytes.drop_last()) * 256 + bytes.last() as nat
    }
}

/// The number whose little-endian digits, base 256, are `bytes`.
pub open spec fn le_value(bytes: Seq<u8>) -> nat {
    be_value(bytes.reverse())
}

/// The number that `bytes` stand for, most significant byte first if `big`.
pub open spec fn unsigned_value(bytes: Seq<u8>, big: bool) -> nat {
    if big {
        be_value(bytes)
    } else {
        le_value(bytes)
    }
}

/// The `width` big-endian digits, base 256, of `v` (of `v` modulo `pow256(width)`).
pub open spec fn be_bytes(v: nat, width: nat) -> Seq<u8>
    decreases width,
{
    if width == 0 {
        Seq::empty()
    } else {
        be_bytes(v / 256, (width - 1) as nat).push((v % 256) as u8)
    }
}

/// The `width` bytes that encode `v`, most significant byte first if `big`.
pub open spec fn unsigned_bytes(v: nat, width: nat, big: bool) -> Seq<u8> {
    if big {
        be_bytes(v, width)
    } else {
        be_bytes(v, width).reverse()
    }
}

/// The two's complement reading of a `width`-byte number.
pub open spec fn signed_of(v: nat, width: nat) -> int {
    if 2 * v >= pow256(width) {
        v - pow256(width)
    } else {
        v as int
    }
}

/// The `width`-byte number whose two's complement reading is `x`.
pub open spec fn unsigned_of(x: int, width: nat) -> nat {
    if x < 0 {
        (x + pow256(width)) as nat
    } else {
        x as nat
    }
}

/// The powers of 256 that the fixed-width types need.
pub proof fn lemma_pow256_values()
    ensures
        pow256(0) == 1,
        pow256(1) == 0x100,
        pow256(2) == 0x1_0000,
        pow256(4) == 0x1_0000_0000,
        pow256(8) == 0x1_0000_0000_0000_0000,
        pow256(16) == 0x1_0000_0000_0000_0000_0000_0000_0000_0000,
{
    reveal_with_fuel(pow256, 17);
}

/// The powers of 256 grow.
pub proof fn lemma_pow256_monotonic(a: nat, b: nat)
    requires
        a <= b,
    ensures
        0 < pow256(a) <= pow256(b),
    decreases b,
{
    if b == 0 {
    } else if a == b {
        lemma_pow256_monotonic((a - 1) as nat, (b - 1) as nat);
    } else {
        lemma_pow256_monotonic(a, (b - 1) as nat);
    }
}

/// A run of bytes stands for a number below 256 to the power of its length.
pub proof fn lemma_be_value_bound(bytes: Seq<u8>)
    ensures
        be_value(bytes) < pow256(bytes.len()),
    decreases bytes.len(),
{
    if bytes.len() > 0 {
        lemma_be_value_bound(bytes.drop_last());
    }
}

/// Either reading of a run of bytes is below 256 to the power of its length.
pub proof fn lemma_unsigned_value_bound(bytes: Seq<u8>, big: bool)
    ensures
        unsigned_value(bytes, big) < pow256(bytes.len()),
{
    lemma_be_value_bound(bytes);
    lemma_be_value_bound(bytes.reverse());
}

/// Encoding gives `width` bytes.
pub proof fn lemma_be_bytes_len(v: nat, width: nat)
    ensures
        be_bytes(v, width).len() == width,
    decreases width,
{
    if width > 0 {
        lemma_be_bytes_len(v / 256, (width - 1) as nat);
    }
}

/// Decoding the big-endian encoding of a number that fits gives the number back.
pub proof fn lemma_be_round_trip(v: nat, width: nat)
    requires
        v < pow256(width),
    ensures
        be_value(be_bytes(v, width)) == v,
    decreases width,
{
    if width > 0 {
        let rest = be_bytes(v / 256, (width - 1) as nat);
        let all = rest.push((v % 256) as u8);
        assert(all.drop_last() == rest);
        assert(all.last() == (v % 256) as u8);
        lemma_be_round_trip(v / 256, (width - 1) as nat);
    }
}

/// Round trip of the unsigned codec: under either byte order, the `width`
/// bytes that encode a number below `pow256(width)` decode to that number.
pub proof fn lemma_unsigned_round_trip(v: nat, width: nat, big: bool)
    requires
        v < pow256(width),
    ensures
        unsigned_bytes(v, width, big).len() == width,
        unsigned_value(unsigned_bytes(v, width, big), big) == v,
{
    lemma_be_bytes_len(v, width);
    lemma_be_round_trip(v, width);
    let b = be_bytes(v, width);
    assert(b.reverse().reverse() == b);
}

/// Round trip of the signed codec: under either byte order, a number in the
/// two's complement range of `width` bytes comes back from its encoding.
pub proof fn lemma_signed_round_trip(x: int, width: nat, big: bool)
    requires
        width > 0,
        -(pow256(width) as int) <= 2 * x < pow256(width),
    ensures
        unsigned_of(x, width) < pow256(width),
        signed_of(unsigned_value(unsigned_bytes(unsigned_of(x, width), width, big), big), width)
            == x,
{
    lemma_unsigned_round_trip(unsigned_of(x, width), width, big);
}

/// Decodes up to sixteen bytes as one unsigned number.
pub fn decode_unsigned(bytes: &[u8], big: bool) -> (r: u128)
    requires
        bytes@.len() <= 16,
    ensures
        r == unsigned_value(bytes@, big),
{
    let n: usize = bytes.len();
    let ghost digits: Seq<u8> = if big {
        bytes@
    } else {
        bytes@.reverse()
    };
    let mut acc: u128 = 0;
    let mut i: usize = 0;
    while i < n
        invariant
            n == bytes@.len(),
            n <= 16,
            i <= n,
            digits == (if big {
                bytes@
            } else {
                bytes@.reverse()
            }),
            acc == be_value(digits.take(i as int)),
        decreases n - i,
    {
        let digit: u8 = if big {
            bytes[i]
        } else {
            bytes[n - 1 - i]
        };
        proof {
            let before = digits.take(i as int);
            let after = digits.take(i + 1);
            assert(after.drop_last() == before);
            assert(after.last() == digit);
            lemma_be_value_bound(before);
            lemma_pow256_monotonic(i as nat, 15);
            lemma_pow256_monotonic(15, 15);
            reveal_with_fuel(pow256, 17);
        }
        acc = acc * 256 + digit as u128;
        i = i + 1;
    }
    proof {
        assert(digits.take(n as int) == digits);
    }
    acc
}

/// Reads a decoded `width`-byte number as two's complement.
pub fn to_signed(v: u128, width: usize) -> (r: i128)
    requires
        1 <= width <= 16,
        v < pow256(width as nat),
    ensures
        r == signed_of(v as nat, width as nat),
{
    proof {
        lemma_pow256_values();
        lemma_pow256_monotonic(width as nat, 16);
    }
    if width == 16 {
        if v >= 0x8000_0000_0000_0000_0000_0000_0000_0000u128 {
            let low: u128 = v - 0x8000_0000_0000_0000_0000_0000_0000_0000u128;
            (low as i128) + i128::MIN
        } else {
            v as i128
        }
    } else {
        let modulus: u128 = pow256_exec(width);
        proof {
            lemma_pow256_monotonic(width as nat, 15);
            reveal_with_fuel(pow256, 16);
            assert(pow256(15) == 0x1_0000_0000_0000_0000_0000_0000_0000_00);
        }
        if v >= modulus / 2 {
            (v as i128) - (modulus as i128)
        } else {
            v as i128
        }
    }
}

/// 256 to the power of `width`, for widths below sixteen.
fn pow256_exec(width: usize) -> (r: u128)
    requires
        width < 16,
    ensures
        r == pow256(width as nat),
        r % 2 == 0 || width == 0,
{
    let mut r: u128 = 1;
    let mut i: usize = 0;
    while i < width
        invariant
            i <= width,
            width < 16,
            r == pow256(i as nat),
            r % 2 == 0 || i == 0,
        decreases width - i,
    {
        proof {
            lemma_pow256_monotonic(i as nat, 15);
            reveal_with_fuel(pow256, 17);
        }
        r = r * 256;
        i = i + 1;
    }
    r
}

} // verus!
