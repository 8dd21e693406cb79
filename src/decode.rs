use vstd::prelude::*;

verus! {

/// `256` raised to `n`.
pub open spec fn pow256(n: nat) -> nat
    decreases n,
{
    if n == 0 {
        1
    } else {
        256 * pow256((n - 1) as nat)
    }
}

/// The unsigned number that `s` encodes, least significant byte first.
pub open spec fn le_unsigned(s: Seq<u8>) -> nat
    decreases s.len(),
{
    if s.len() == 0 {
        0
    } else {
        s[0] as nat + 256 * le_unsigned(s.drop_first())
    }
}

/// The two's-complement number that `s` encodes, least significant byte first.
pub open spec fn le_signed(s: Seq<u8>) -> int {
    let u = le_unsigned(s);
    if 2 * u >= pow256(s.len()) {
        u - pow256(s.len())
    } else {
        u as int
    }
}

/// The `n` bytes of `b` that start at `start`.
pub open spec fn field_bytes(b: Seq<u8>, start: int, n: int) -> Seq<u8> {
    b.subrange(start, start + n)
}

/// The UTF-16 code units that `b` encodes, two bytes each, least significant first.
pub open spec fn utf16_units(b: Seq<u8>) -> Seq<u16> {
    Seq::new(b.len() / 2, |i: int| (b[2 * i] + 256 * b[2 * i + 1]) as u16)
}

pub proof fn lemma_pow256_values()
    ensures
        pow256(1) == 0x100,
        pow256(2) == 0x1_0000,
        pow256(4) == 0x1_0000_0000,
        pow256(8) == 0x1_0000_0000_0000_0000,
{
    reveal_with_fuel(pow256, 9);
}

proof fn lemma_pow256_le(k: nat, n: nat)
    requires
        k <= n,
    ensures
        pow256(k) <= pow256(n),
    decreases n,
{
    if k < n {
        lemma_pow256_le(k, (n - 1) as nat);
    }
}

/// The unsigned value of `b[start..start + n]`, for at most eight bytes.
fn le_value(b: &Vec<u8>, start: usize, n: usize) -> (r: u64)
    requires
        n <= 8,
        start + n <= b@.len(),
    ensures
        r == le_unsigned(field_bytes(b@, start as int, n as int)),
        r < pow256(n as nat),
{
    let ghost s = field_bytes(b@, start as int, n as int);
    let len = b.len();
    let mut v: u64 = 0;
    let mut i: usize = n;
    proof {
        assert(s.skip(n as int) =~= Seq::<u8>::empty());
        lemma_pow256_values();
    }
    while i > 0
        invariant
            n <= 8,
            len == b@.len(),
            start + n <= len,
            s == field_bytes(b@, start as int, n as int),
            0 <= i <= n,
            v == le_unsigned(s.skip(i as int)),
            v < pow256((n - i) as nat),
        decreases i,
    {
        i = i - 1;
        proof {
            assert(s.skip(i as int).drop_first() =~= s.skip(i + 1));
            assert(s.skip(i as int)[0] == b@[start + i]);
            lemma_pow256_le((n - i - 1) as nat, 7);
            lemma_pow256_values();
            reveal_with_fuel(pow256, 8);
            assert(pow256((n - i) as nat) == 256 * pow256((n - i - 1) as nat));
            assert(256 * v + 255 < 256 * pow256((n - i - 1) as nat)) by (nonlinear_arith)
                requires
                    v < pow256((n - i - 1) as nat),
            ;
        }
        v = b[start + i] as u64 + 256 * v;
    }
    proof {
        assert(s.skip(0) =~= s);
    }
    v
}

/// Reads an unsigned 16-bit number at `start`.
pub fn decode_u16(b: &Vec<u8>, start: usize) -> (r: u16)
    requires
        start + 2 <= b@.len(),
    ensures
        r == le_unsigned(field_bytes(b@, start as int, 2)),
{
    proof {
        lemma_pow256_values();
    }
    le_value(b, start, 2) as u16
}

/// Reads a signed 16-bit number at `start`.
pub fn decode_i16(b: &Vec<u8>, start: usize) -> (r: i16)
    requires
        start + 2 <= b@.len(),
    ensures
        r == le_signed(field_bytes(b@, start as int, 2)),
{
    proof {
        lemma_pow256_values();
    }
    let u = le_value(b, start, 2);
    if u >= 0x8000 {
        (u as i32 - 0x1_0000) as i16
    } else {
        u as i16
    }
}

/// Reads an unsigned 32-bit number at `start`.
pub fn decode_u32(b: &Vec<u8>, start: usize) -> (r: u32)
    requires
        start + 4 <= b@.len(),
    ensures
        r == le_unsigned(field_bytes(b@, start as int, 4)),
{
    proof {
        lemma_pow256_values();
    }
    le_value(b, start, 4) as u32
}

/// Reads a signed 32-bit number at `start`.
pub fn decode_i32(b: &Vec<u8>, start: usize) -> (r: i32)
    requires
        start + 4 <= b@.len(),
    ensures
        r == le_signed(field_bytes(b@, start as int, 4)),
{
    proof {
        lemma_pow256_values();
    }
    let u = le_value(b, start, 4);
    if u >= 0x8000_0000 {
        (u as i64 - 0x1_0000_0000) as i32
    } else {
        u as i32
    }
}

/// Reads an unsigned 64-bit number at `start`.
pub fn decode_u64(b: &Vec<u8>, start: usize) -> (r: u64)
    requires
        start + 8 <= b@.len(),
    ensures
        r == le_unsigned(field_bytes(b@, start as int, 8)),
{
    le_value(b, start, 8)
}

/// Splits `b` into UTF-16 code units.
pub fn decode_utf16_units(b: &Vec<u8>) -> (r: Vec<u16>)
    ensures
        r@ == utf16_units(b@),
{
    let len = b.len();
    let n = len / 2;
    let mut out: Vec<u16> = Vec::new();
    let mut i: usize = 0;
    while i < n
        invariant
            len == b@.len(),
            n == len / 2,
            0 <= i <= n,
            out@.len() == i,
            forall|j: int| 0 <= j < i ==> #[trigger] out@[j] == utf16_units(b@)[j],
        decreases n - i,
    {
        let lo = b[2 * i] as u16;
        let hi = b[2 * i + 1] as u16;
        out.push(lo + 256 * hi);
        i = i + 1;
    }
    assert(out@ =~= utf16_units(b@));
    out
}

} // verus!
