use vstd::prelude::*;

verus! {

/// The integer denoted by the byte sequence `b` read little-endian:
/// the first byte is least significant.
pub open spec fn spec_le_value(b: Seq<u8>) -> int
    decreases b.len(),
{
    if b.len() == 0 {
        0
    } else {
        b.first() + 256 * spec_le_value(b.drop_first())
    }
}

/// The integer denoted by the byte sequence `b` read big-endian:
/// the first byte is most significant.
pub open spec fn spec_be_value(b: Seq<u8>) -> int
    decreases b.len(),
{
    if b.len() == 0 {
        0
    } else {
        256 * spec_be_value(b.drop_last()) + b.last()
    }
}

/// 256 raised to the power `n`: the number of values a sequence of `n`
/// bytes can denote.
pub open spec fn pow256(n: nat) -> int
    decreases n,
{
    if n == 0 {
        1
    } else {
        256 * pow256((n - 1) as nat)
    }
}

/// The signed reading of an unsigned value `u` of `n` bytes, in two's
/// complement.
pub open spec fn spec_signed_value(u: int, n: nat) -> int {
    if 2 * u < pow256(n) {
        u
    } else {
        u - pow256(n)
    }
}

pub proof fn lemma_pow256_pos(n: nat)
    ensures
        pow256(n) >= 1,
    decreases n,
{
    if n > 0 {
        lemma_pow256_pos((n - 1) as nat);
    }
}

pub proof fn lemma_pow256_increases(m: nat, n: nat)
    requires
        m <= n,
    ensures
        pow256(m) <= pow256(n),
    decreases n,
{
    if m < n {
        lemma_pow256_increases(m, (n - 1) as nat);
        lemma_pow256_pos((n - 1) as nat);
    }
}

/// A sequence of `n` bytes denotes, little-endian, a value in
/// `[0, 256^n)`.
pub proof fn lemma_le_value_bound(b: Seq<u8>)
    ensures
        0 <= spec_le_value(b) < pow256(b.len()),
    decreases b.len(),
{
    if b.len() > 0 {
        lemma_le_value_bound(b.drop_first());
    }
}

/// A sequence of `n` bytes denotes, big-endian, a value in
/// `[0, 256^n)`.
pub proof fn lemma_be_value_bound(b: Seq<u8>)
    ensures
        0 <= spec_be_value(b) < pow256(b.len()),
    decreases b.len(),
{
    if b.len() > 0 {
        lemma_be_value_bound(b.drop_last());
    }
}

/// Reading a sequence big-endian is reading its reversal
/// little-endian.
pub proof fn lemma_be_is_le_of_reverse(b: Seq<u8>)
    ensures
        spec_be_value(b) == spec_le_value(b.reverse()),
    decreases b.len(),
{
    if b.len() > 0 {
        lemma_be_is_le_of_reverse(b.drop_last());
        assert(b.reverse().first() == b.last());
        assert(b.reverse().drop_first() =~= b.drop_last().reverse());
    }
}

/// Two byte sequences of one length denoting the same little-endian
/// value are the same sequence.
pub proof fn lemma_le_value_injective(a: Seq<u8>, b: Seq<u8>)
    requires
        a.len() == b.len(),
        spec_le_value(a) == spec_le_value(b),
    ensures
        a == b,
    decreases a.len(),
{
    if a.len() > 0 {
        let ra = spec_le_value(a.drop_first());
        let rb = spec_le_value(b.drop_first());
        assert(a.first() + 256 * ra == b.first() + 256 * rb);
        assert(a.first() == b.first() && ra == rb);
        lemma_le_value_injective(a.drop_first(), b.drop_first());
        assert forall|i: int| 0 <= i < a.len() implies a[i] == b[i] by {
            if i > 0 {
                assert(a[i] == a.drop_first()[i - 1]);
                assert(b[i] == b.drop_first()[i - 1]);
            }
        }
        assert(a =~= b);
    } else {
        assert(a =~= b);
    }
}

/// Unless a byte sequence reads the same forwards and backwards, its
/// little-endian and big-endian readings differ.
pub proof fn lemma_endian_distinct(b: Seq<u8>)
    requires
        b != b.reverse(),
    ensures
        spec_le_value(b) != spec_be_value(b),
{
    lemma_be_is_le_of_reverse(b);
    if spec_le_value(b) == spec_be_value(b) {
        lemma_le_value_injective(b, b.reverse());
    }
}

/// The `n` little-endian bytes that denote the value `x`.
pub open spec fn spec_le_bytes_of(x: int, n: nat) -> Seq<u8>
    decreases n,
{
    if n == 0 {
        Seq::empty()
    } else {
        seq![(x % 256) as u8] + spec_le_bytes_of(x / 256, (n - 1) as nat)
    }
}

/// Round trip: a value of `[0, 256^n)` written as `n` little-endian
/// bytes and read back little-endian is unchanged.
pub proof fn lemma_le_round_trip(x: int, n: nat)
    requires
        0 <= x < pow256(n),
    ensures
        spec_le_bytes_of(x, n).len() == n,
        spec_le_value(spec_le_bytes_of(x, n)) == x,
    decreases n,
{
    if n > 0 {
        assert(0 <= x / 256 < pow256((n - 1) as nat)) by {
            assert(x < 256 * pow256((n - 1) as nat));
            assert(x / 256 <= x) by (nonlinear_arith)
                requires 0 <= x;
            assert(256 * (x / 256) <= x) by (nonlinear_arith)
                requires 0 <= x;
        }
        lemma_le_round_trip(x / 256, (n - 1) as nat);
        let s = spec_le_bytes_of(x, n);
        assert(s.first() == (x % 256) as u8);
        assert(s.drop_first() =~= spec_le_bytes_of(x / 256, (n - 1) as nat));
        assert(x % 256 + 256 * (x / 256) == x) by (nonlinear_arith)
            requires 0 <= x;
    }
}

/// The unsigned value whose `n`-byte two's-complement reading is `x`.
pub open spec fn spec_unsigned_of(x: int, n: nat) -> int {
    if x < 0 {
        x + pow256(n)
    } else {
        x
    }
}

/// Round trip for the other direction: a sequence of bytes written
/// back from its own little-endian value is unchanged.
pub proof fn lemma_le_bytes_round_trip(b: Seq<u8>)
    ensures
        spec_le_bytes_of(spec_le_value(b), b.len()) == b,
{
    lemma_le_value_bound(b);
    lemma_le_round_trip(spec_le_value(b), b.len());
    lemma_le_value_injective(spec_le_bytes_of(spec_le_value(b), b.len()), b);
}

/// Round trip through two's complement: a signed value of `n` bytes
/// written as the little-endian bytes of its unsigned reading and read
/// back signed is unchanged.
pub proof fn lemma_signed_le_round_trip(x: int, n: nat)
    requires
        -pow256(n) <= 2 * x < pow256(n),
    ensures
        spec_signed_value(spec_le_value(spec_le_bytes_of(spec_unsigned_of(x, n), n)), n) == x,
{
    lemma_pow256_pos(n);
    let u = spec_unsigned_of(x, n);
    lemma_le_round_trip(u, n);
}

/// Round trip read big-endian: the reversal of the little-endian bytes
/// of a value reads back, big-endian, as that value.
pub proof fn lemma_be_round_trip(x: int, n: nat)
    requires
        0 <= x < pow256(n),
    ensures
        spec_be_value(spec_le_bytes_of(x, n).reverse()) == x,
{
    let b = spec_le_bytes_of(x, n).reverse();
    lemma_le_round_trip(x, n);
    lemma_be_is_le_of_reverse(b);
    assert(b.reverse() =~= spec_le_bytes_of(x, n));
}

/// Decodes at most 16 bytes as a little-endian unsigned integer.
pub fn le_decode(bytes: &[u8]) -> (r: u128)
    requires
        bytes@.len() <= 16,
    ensures
        r as int == spec_le_value(bytes@),
{
    let n = bytes.len();
    let mut acc: u128 = 0;
    let mut i: usize = n;
    while i > 0
        invariant
            0 <= i <= n,
            n == bytes@.len(),
            n <= 16,
            acc as int == spec_le_value(bytes@.subrange(i as int, n as int)),
        decreases i,
    {
        proof {
            lemma_le_value_bound(bytes@.subrange(i as int, n as int));
            lemma_pow256_increases((n - i) as nat, 15);
            assert(pow256(15) == 0x1000000000000000000000000000000) by {
                reveal_with_fuel(pow256, 16);
            }
        }
        i = i - 1;
        let b = bytes[i];
        acc = 256 * acc + (b as u128);
        proof {
            let sub = bytes@.subrange(i as int, n as int);
            assert(sub.first() == bytes@[i as int]);
            assert(sub.drop_first() =~= bytes@.subrange(i as int + 1, n as int));
        }
    }
    proof {
        assert(bytes@.subrange(0, n as int) =~= bytes@);
    }
    acc
}

/// Decodes at most 16 bytes as a big-endian unsigned integer.
pub fn be_decode(bytes: &[u8]) -> (r: u128)
    requires
        bytes@.len() <= 16,
    ensures
        r as int == spec_be_value(bytes@),
{
    let n = bytes.len();
    let mut acc: u128 = 0;
    let mut i: usize = 0;
    while i < n
        invariant
            0 <= i <= n,
            n == bytes@.len(),
            n <= 16,
            acc as int == spec_be_value(bytes@.subrange(0, i as int)),
        decreases n - i,
    {
        proof {
            lemma_be_value_bound(bytes@.subrange(0, i as int));
            lemma_pow256_increases(i as nat, 15);
            assert(pow256(15) == 0x1000000000000000000000000000000) by {
                reveal_with_fuel(pow256, 16);
            }
        }
        let b = bytes[i];
        acc = 256 * acc + (b as u128);
        i = i + 1;
        proof {
            let sub = bytes@.subrange(0, i as int);
            assert(sub.last() == bytes@[i - 1]);
            assert(sub.drop_last() =~= bytes@.subrange(0, i - 1));
        }
    }
    proof {
        assert(bytes@.subrange(0, n as int) =~= bytes@);
    }
    acc
}

/// Reinterprets a 16-bit unsigned value in two's complement.
pub fn u16_as_signed(u: u16) -> (r: i16)
    ensures
        r as int == spec_signed_value(u as int, 2),
{
    proof {
        assert(pow256(2) == 0x10000) by {
            reveal_with_fuel(pow256, 3);
        }
    }
    if u < 0x8000 {
        u as i16
    } else {
        let d: u16 = (u16::MAX - u) + 1;
        if d == 0x8000 {
            i16::MIN
        } else {
            -(d as i16)
        }
    }
}

/// Reinterprets a 32-bit unsigned value in two's complement.
pub fn u32_as_signed(u: u32) -> (r: i32)
    ensures
        r as int == spec_signed_value(u as int, 4),
{
    proof {
        assert(pow256(4) == 0x100000000) by {
            reveal_with_fuel(pow256, 5);
        }
    }
    if u < 0x80000000 {
        u as i32
    } else {
        let d: u32 = (u32::MAX - u) + 1;
        if d == 0x80000000 {
            i32::MIN
        } else {
            -(d as i32)
        }
    }
}

/// Reinterprets a 64-bit unsigned value in two's complement.
pub fn u64_as_signed(u: u64) -> (r: i64)
    ensures
        r as int == spec_signed_value(u as int, 8),
{
    proof {
        assert(pow256(8) == 0x10000000000000000) by {
            reveal_with_fuel(pow256, 9);
        }
    }
    if u < 0x8000000000000000 {
        u as i64
    } else {
        let d: u64 = (u64::MAX - u) + 1;
        if d == 0x8000000000000000 {
            i64::MIN
        } else {
            -(d as i64)
        }
    }
}

/// Reinterprets a 128-bit unsigned value in two's complement.
pub fn u128_as_signed(u: u128) -> (r: i128)
    ensures
        r as int == spec_signed_value(u as int, 16),
{
    proof {
        assert(pow256(16) == 0x100000000000000000000000000000000) by {
            reveal_with_fuel(pow256, 17);
        }
    }
    if u < 0x80000000000000000000000000000000 {
        u as i128
    } else {
        let d: u128 = (u128::MAX - u) + 1;
        if d == 0x80000000000000000000000000000000 {
            i128::MIN
        } else {
            -(d as i128)
        }
    }
}

} // verus!
