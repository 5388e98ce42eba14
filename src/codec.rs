//! Little-endian encoding of register values one, two or four bytes wide,
//! signed (two's complement) or unsigned.
use vstd::prelude::*;
use vstd::arithmetic::div_mod::{
    lemma_div_denominator,
    lemma_hoist_over_denominator,
    lemma_mod_breakdown,
    lemma_mod_multiples_vanish,
    lemma_small_mod,
};
use crate::error::Error;

verus! {

/// `256` raised to the power `k`.
pub open spec fn pow256(k: nat) -> nat
    decreases k,
{
    if k == 0 {
        1
    } else {
        256 * pow256((k - 1) as nat)
    }
}

/// The unsigned integer whose little-endian bytes are `s`.
pub open spec fn le_value(s: Seq<u8>) -> nat
    decreases s.len(),
{
    if s.len() == 0 {
        0
    } else {
        le_value(s.drop_last()) + s.last() as nat * pow256((s.len() - 1) as nat)
    }
}

/// The `k` low-order bytes of `n`, least significant first.
pub open spec fn le_bytes(n: nat, k: nat) -> Seq<u8>
    decreases k,
{
    if k == 0 {
        Seq::empty()
    } else {
        le_bytes(n, (k - 1) as nat).push(((n / pow256((k - 1) as nat)) % 256) as u8)
    }
}

/// Width of a register in bytes.
#[derive(Clone, Copy, Debug, PartialEq, Eq, Structural)]
pub enum Width {
    One,
    Two,
    Four,
}

impl Width {
    pub open spec fn spec_bytes(self) -> nat {
        match self {
            Width::One => 1,
            Width::Two => 2,
            Width::Four => 4,
        }
    }

    /// Number of bytes a register of this width occupies.
    pub fn bytes(self) -> (r: usize)
        ensures
            r == self.spec_bytes(),
    {
        match self {
            Width::One => 1,
            Width::Two => 2,
            Width::Four => 4,
        }
    }
}

/// How a register value is stored: its width and whether it is signed.
#[derive(Clone, Copy, Debug, PartialEq, Eq, Structural)]
pub struct Encoding {
    pub width: Width,
    pub signed: bool,
}

impl Encoding {
    /// Number of distinct bit patterns of this width.
    pub open spec fn modulus(self) -> nat {
        pow256(self.width.spec_bytes())
    }

    pub open spec fn min_value(self) -> int {
        if self.signed {
            -(self.modulus() / 2)
        } else {
            0
        }
    }

    pub open spec fn max_value(self) -> int {
        if self.signed {
            self.modulus() / 2 - 1
        } else {
            self.modulus() - 1
        }
    }

    /// `v` can be stored in a register of this encoding.
    pub open spec fn represents(self, v: int) -> bool {
        self.min_value() <= v <= self.max_value()
    }

    /// The value that the bytes `s` hold.
    pub open spec fn value_of(self, s: Seq<u8>) -> int {
        let u = le_value(s);
        if self.signed && u >= self.modulus() / 2 {
            u - self.modulus()
        } else {
            u as int
        }
    }

    /// The bytes that store `v`.
    pub open spec fn bytes_of(self, v: int) -> Seq<u8> {
        let n = if v < 0 { v + self.modulus() } else { v };
        le_bytes(n as nat, self.width.spec_bytes())
    }

    /// Decodes a register value from exactly `width` little-endian bytes.
    pub fn decode(&self, bytes: &[u8]) -> (r: Result<i64, Error>)
        ensures
            r is Ok <==> bytes@.len() == self.width.spec_bytes(),
            r matches Ok(v) ==> v == self.value_of(bytes@),
            r matches Err(e) ==> e == Error::Format,
    {
        let w = self.width.bytes();
        if bytes.len() != w {
            return Err(Error::Format);
        }
        proof {
            lemma_modulus(*self);
        }
        let u = read_le(bytes, 0, w);
        assert(bytes@.subrange(0, w as int) == bytes@);
        proof {
            lemma_le_value_bound(bytes@);
        }
        let m: u64 = match self.width {
            Width::One => 0x100,
            Width::Two => 0x1_0000,
            Width::Four => 0x1_0000_0000,
        };
        if self.signed && u >= m / 2 {
            Ok(u as i64 - m as i64)
        } else {
            Ok(u as i64)
        }
    }

    /// Encodes `value` as `width` little-endian bytes; a value the register
    /// cannot hold is refused.
    pub fn encode(&self, value: i64) -> (r: Result<Vec<u8>, Error>)
        ensures
            r is Ok <==> self.represents(value as int),
            r matches Ok(b) ==> b@ == self.bytes_of(value as int),
            r matches Err(e) ==> e == Error::Format,
    {
        proof {
            lemma_modulus(*self);
        }
        let m: i64 = match self.width {
            Width::One => 0x100,
            Width::Two => 0x1_0000,
            Width::Four => 0x1_0000_0000,
        };
        let (lo, hi): (i64, i64) = if self.signed {
            (-(m / 2), m / 2 - 1)
        } else {
            (0, m - 1)
        };
        if value < lo || value > hi {
            return Err(Error::Format);
        }
        let n: u64 = if value < 0 { (value + m) as u64 } else { value as u64 };
        let w = self.width.bytes();
        let mut out: Vec<u8> = Vec::new();
        let mut rest: u64 = n;
        let mut i: usize = 0;
        assert(pow256(0) == 1);
        while i < w
            invariant
                w == self.width.spec_bytes(),
                i <= w,
                out@ == le_bytes(n as nat, i as nat),
                rest == n as nat / pow256(i as nat),
            decreases w - i,
        {
            proof {
                lemma_pow256_positive(i as nat);
                lemma_div_denominator(n as int, pow256(i as nat) as int, 256);
                assert(pow256((i + 1) as nat) == pow256(i as nat) * 256);
            }
            out.push((rest % 256) as u8);
            rest = rest / 256;
            i = i + 1;
        }
        Ok(out)
    }
}

/// Reads `len` little-endian bytes of `bytes` starting at `start`.
pub fn read_le(bytes: &[u8], start: usize, len: usize) -> (r: u64)
    requires
        start + len <= bytes@.len(),
        len <= 4,
    ensures
        r == le_value(bytes@.subrange(start as int, start + len)),
        r < pow256(len as nat),
{
    let blen = bytes.len();
    let mut acc: u64 = 0;
    let mut mult: u64 = 1;
    let mut i: usize = 0;
    while i < len
        invariant
            start + len <= blen,
            blen == bytes@.len(),
            len <= 4,
            i <= len,
            mult == pow256(i as nat),
            mult <= 0x1_0000_0000,
            acc == le_value(bytes@.subrange(start as int, start + i)),
            acc < mult,
        decreases len - i,
    {
        let ghost s = bytes@.subrange(start as int, start + i + 1);
        assert(s.drop_last() == bytes@.subrange(start as int, start + i));
        let b = bytes[start + i];
        assert(s.last() == b);
        proof {
            lemma_pow256_monotonic((i + 1) as nat, 4);
            reveal_with_fuel(pow256, 5);
            assert(pow256((i + 1) as nat) == 256 * pow256(i as nat));
        }
        assert(acc + b as u64 * mult < 256 * mult) by (nonlinear_arith)
            requires
                acc < mult,
                b < 256,
        ;
        acc = acc + b as u64 * mult;
        mult = mult * 256;
        i = i + 1;
    }
    acc
}

proof fn lemma_pow256_positive(k: nat)
    ensures
        pow256(k) > 0,
    decreases k,
{
    if k > 0 {
        lemma_pow256_positive((k - 1) as nat);
    }
}

proof fn lemma_pow256_monotonic(j: nat, k: nat)
    requires
        j <= k,
    ensures
        pow256(j) <= pow256(k),
    decreases k - j,
{
    if j < k {
        lemma_pow256_monotonic(j, (k - 1) as nat);
        lemma_pow256_positive((k - 1) as nat);
    }
}

/// The powers of 256 that register widths use.
pub proof fn lemma_pow256_widths()
    ensures
        pow256(1) == 0x100,
        pow256(2) == 0x1_0000,
        pow256(4) == 0x1_0000_0000,
{
    reveal_with_fuel(pow256, 5);
}

proof fn lemma_modulus(e: Encoding)
    ensures
        e.width == Width::One ==> e.modulus() == 0x100,
        e.width == Width::Two ==> e.modulus() == 0x1_0000,
        e.width == Width::Four ==> e.modulus() == 0x1_0000_0000,
{
    reveal_with_fuel(pow256, 5);
}

/// The value of `le_bytes(n, k)` is `n` reduced modulo `256^k`.
proof fn lemma_le_bytes_value(n: nat, k: nat)
    ensures
        le_bytes(n, k).len() == k,
        le_value(le_bytes(n, k)) == n % pow256(k),
    decreases k,
{
    if k > 0 {
        let p = pow256((k - 1) as nat);
        lemma_le_bytes_value(n, (k - 1) as nat);
        lemma_pow256_positive((k - 1) as nat);
        let s = le_bytes(n, k);
        let d = (n / p) % 256;
        assert(s.drop_last() == le_bytes(n, (k - 1) as nat));
        assert(s.last() == d);
        assert(le_value(s) == n % p + d * p);
        lemma_mod_breakdown(n as int, p as int, 256);
        assert(pow256(k) == p * 256);
        assert(d * p == p * d) by (nonlinear_arith);
    }
}

/// Decoding the encoding of any value that a register can hold gives that
/// value back, in exactly `width` bytes.
pub proof fn lemma_round_trip(e: Encoding, v: int)
    requires
        e.represents(v),
    ensures
        e.bytes_of(v).len() == e.width.spec_bytes(),
        e.value_of(e.bytes_of(v)) == v,
{
    lemma_modulus(e);
    let n = if v < 0 { v + e.modulus() } else { v };
    lemma_le_bytes_value(n as nat, e.width.spec_bytes());
    lemma_small_mod(n as nat, e.modulus());
}

/// Encoding the value that any `width` bytes hold gives those bytes back.
pub proof fn lemma_bytes_round_trip(e: Encoding, s: Seq<u8>)
    requires
        s.len() == e.width.spec_bytes(),
    ensures
        e.bytes_of(e.value_of(s)) == s,
{
    lemma_modulus(e);
    lemma_le_value_bound(s);
    let k = e.width.spec_bytes();
    let u = le_value(s);
    assert(e.bytes_of(e.value_of(s)) == le_bytes(u, k));
    let b = le_bytes(u, k);
    assert forall|i: int| 0 <= i < k implies b[i] == s[i] by {
        lemma_le_bytes_index(u, k, i as nat);
        lemma_le_value_byte(s, i as nat);
    }
    lemma_le_bytes_value(u, k);
    assert(b == s);
}

proof fn lemma_pow256_add(a: nat, b: nat)
    ensures
        pow256(a + b) == pow256(a) * pow256(b),
    decreases b,
{
    if b > 0 {
        lemma_pow256_add(a, (b - 1) as nat);
        let pa = pow256(a);
        let pb = pow256((b - 1) as nat);
        assert(pow256(a + b) == 256 * pow256((a + b - 1) as nat));
        assert(pow256(b) == 256 * pb);
        assert(pa * (256 * pb) == 256 * (pa * pb)) by (nonlinear_arith);
    } else {
        assert(pow256(0) == 1);
        assert(a + b == a);
    }
}

/// Byte `i` of `le_bytes(n, k)` is digit `i` of `n` in base 256.
proof fn lemma_le_bytes_index(n: nat, k: nat, i: nat)
    requires
        i < k,
    ensures
        le_bytes(n, k).len() == k,
        le_bytes(n, k)[i as int] == ((n / pow256(i)) % 256) as u8,
    decreases k,
{
    lemma_le_bytes_value(n, k);
    if i < k - 1 {
        lemma_le_bytes_index(n, (k - 1) as nat, i);
    }
}

/// Digit `i` in base 256 of the value of `s` is `s[i]`.
proof fn lemma_le_value_byte(s: Seq<u8>, i: nat)
    requires
        i < s.len(),
    ensures
        (le_value(s) / pow256(i)) % 256 == s[i as int],
    decreases s.len(),
{
    let k = (s.len() - 1) as nat;
    let t = s.drop_last();
    let x = le_value(t) as int;
    let last = s.last() as int;
    let p = pow256(k) as int;
    lemma_le_value_bound(t);
    lemma_pow256_positive(i);
    if i == k {
        lemma_hoist_over_denominator(x, last, p as nat);
        assert(x / p == 0) by {
            vstd::arithmetic::div_mod::lemma_basic_div(x, p);
        }
        assert(last * p == p * last) by (nonlinear_arith);
        lemma_small_mod(last as nat, 256);
    } else {
        lemma_le_value_byte(t, i);
        let a = pow256(i) as int;
        let r = pow256((k - i - 1) as nat) as int;
        lemma_pow256_add(i, (k - i) as nat);
        assert(pow256((k - i) as nat) == 256 * r);
        let q = last * (256 * r);
        assert(last * p == q * a) by (nonlinear_arith)
            requires
                p == a * (256 * r),
                q == last * (256 * r),
        ;
        lemma_hoist_over_denominator(x, q, a as nat);
        assert(x / a + q == 256 * (last * r) + x / a) by (nonlinear_arith)
            requires
                q == last * (256 * r),
        ;
        lemma_mod_multiples_vanish(last * r, x / a, 256);
    }
}

/// A decoded value lies in the register's range.
pub proof fn lemma_value_fits(e: Encoding, s: Seq<u8>)
    requires
        s.len() == e.width.spec_bytes(),
    ensures
        e.represents(e.value_of(s)),
{
    lemma_modulus(e);
    lemma_le_value_bound(s);
}

proof fn lemma_le_value_bound(s: Seq<u8>)
    ensures
        le_value(s) < pow256(s.len()),
    decreases s.len(),
{
    if s.len() > 0 {
        let k = (s.len() - 1) as nat;
        let p = pow256(k);
        lemma_le_value_bound(s.drop_last());
        assert(le_value(s) < 256 * p) by (nonlinear_arith)
            requires
                le_value(s) == le_value(s.drop_last()) + s.last() as nat * p,
                le_value(s.drop_last()) < p,
                s.last() < 256,
        ;
    }
}

} // verus!
