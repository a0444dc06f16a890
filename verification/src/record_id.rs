//! Record identifiers for the document store.
//!
//! An identifier is a fixed-width twelve-byte reference, held here as a
//! four-byte high part and an eight-byte low part.  The all-zero value is
//! the reserved invalid sentinel.  Identifiers render to and parse from a
//! canonical 24-digit hexadecimal string.

use vstd::prelude::*;

verus! {

#[derive(Clone, Copy, PartialEq, Eq, Structural, Debug)]
pub struct RecordId {
    pub hi: u32,
    pub lo: u64,
}

/// Powers of sixteen.
pub open spec fn pow16(k: nat) -> nat
    decreases k,
{
    if k == 0 {
        1
    } else {
        16 * pow16((k - 1) as nat)
    }
}

/// The value of a hexadecimal digit, or 16 for any other character.
/// Both letter cases are read.
pub open spec fn hex_digit_val(c: char) -> int {
    if 48 <= c as u32 && c as u32 <= 57 {
        c as u32 - 48
    } else if 97 <= c as u32 && c as u32 <= 102 {
        c as u32 - 87
    } else if 65 <= c as u32 && c as u32 <= 70 {
        c as u32 - 55
    } else {
        16
    }
}

pub open spec fn is_hex_digit(c: char) -> bool {
    hex_digit_val(c) < 16
}

/// A digit of the canonical rendering: decimal, or a small letter.
pub open spec fn is_lower_hex(c: char) -> bool {
    (48 <= c as u32 && c as u32 <= 57) || (97 <= c as u32 && c as u32 <= 102)
}

pub open spec fn all_hex(s: Seq<char>) -> bool {
    forall|i: int| 0 <= i < s.len() ==> is_hex_digit(#[trigger] s[i])
}

/// The value of the first `n` characters read as big-endian hexadecimal.
pub open spec fn hex_val_upto(s: Seq<char>, n: int) -> int
    decreases n,
{
    if n <= 0 {
        0
    } else {
        16 * hex_val_upto(s, n - 1) + hex_digit_val(s[n - 1])
    }
}

/// The value of a character sequence read as big-endian hexadecimal.
pub open spec fn hex_val(s: Seq<char>) -> int {
    hex_val_upto(s, s.len() as int)
}

/// The value of the first `n` digits read with little-endian weights.
pub open spec fn le_val_upto(d: Seq<u8>, n: int) -> int
    decreases n,
{
    if n <= 0 {
        0
    } else {
        le_val_upto(d, n - 1) + (d[n - 1] as int) * pow16((n - 1) as nat)
    }
}

/// What a character sequence parses to: an identifier whose high part is
/// the value of the first eight digits and whose low part is the value of
/// the remaining sixteen, or nothing unless the sequence is exactly 24
/// hexadecimal digits.
pub open spec fn spec_parse_id(s: Seq<char>) -> Option<RecordId> {
    if s.len() == 24 && all_hex(s) {
        Some(
            RecordId {
                hi: hex_val(s.subrange(0, 8)) as u32,
                lo: hex_val(s.subrange(8, 24)) as u64,
            },
        )
    } else {
        None
    }
}

/// The numeric values of the fixed powers the code relies on.
pub proof fn lemma_pow16_values()
    ensures
        pow16(8) == 0x1_0000_0000,
        pow16(16) == 0x1_0000_0000_0000_0000,
{
    assert(pow16(0) == 1);
    assert(pow16(1) == 16);
    assert(pow16(2) == 0x100);
    assert(pow16(3) == 0x1000);
    assert(pow16(4) == 0x1_0000);
    assert(pow16(5) == 0x10_0000);
    assert(pow16(6) == 0x100_0000);
    assert(pow16(7) == 0x1000_0000);
    assert(pow16(8) == 0x1_0000_0000);
    assert(pow16(9) == 0x10_0000_0000);
    assert(pow16(10) == 0x100_0000_0000);
    assert(pow16(11) == 0x1000_0000_0000);
    assert(pow16(12) == 0x1_0000_0000_0000);
    assert(pow16(13) == 0x10_0000_0000_0000);
    assert(pow16(14) == 0x100_0000_0000_0000);
    assert(pow16(15) == 0x1000_0000_0000_0000);
    assert(pow16(16) == 0x1_0000_0000_0000_0000);
}

/// Powers of sixteen do not decrease.
pub proof fn lemma_pow16_mono(a: nat, b: nat)
    requires
        a <= b,
    ensures
        pow16(a) <= pow16(b),
    decreases b,
{
    if a < b {
        lemma_pow16_mono(a, (b - 1) as nat);
        assert(pow16(b) == 16 * pow16((b - 1) as nat));
    }
}

/// Little-endian digit values are never negative.
pub proof fn lemma_le_val_nonneg(d: Seq<u8>, n: int)
    ensures
        le_val_upto(d, n) >= 0,
    decreases n,
{
    if n > 0 {
        lemma_le_val_nonneg(d, n - 1);
    }
}

/// Little-endian digit values look only at the digits below `n`.
pub proof fn lemma_le_val_prefix(d1: Seq<u8>, d2: Seq<u8>, n: int)
    requires
        forall|k: int| 0 <= k < n ==> d1[k] == d2[k],
    ensures
        le_val_upto(d1, n) == le_val_upto(d2, n),
    decreases n,
{
    if n > 0 {
        lemma_le_val_prefix(d1, d2, n - 1);
    }
}

/// A big-endian reading of characters whose digit values mirror a
/// little-endian digit sequence reaches the same value.
proof fn lemma_be_of_le(c: Seq<char>, d: Seq<u8>, w: int, n: int)
    requires
        0 <= n <= w,
        c.len() == w,
        d.len() == w,
        forall|t: int| 0 <= t < w ==> hex_digit_val(#[trigger] c[t]) == d[w - 1 - t] as int,
    ensures
        le_val_upto(d, w) == hex_val_upto(c, n) * pow16((w - n) as nat) + le_val_upto(d, w - n),
    decreases n,
{
    if n == 0 {
    } else {
        lemma_be_of_le(c, d, w, n - 1);
        let h = hex_val_upto(c, n - 1);
        let dv = d[w - n] as int;
        let p = pow16((w - n) as nat) as int;
        assert(pow16((w - n + 1) as nat) == 16 * pow16((w - n) as nat));
        assert(le_val_upto(d, w - n + 1) == le_val_upto(d, w - n) + dv * p);
        assert(hex_val_upto(c, n) == 16 * h + dv);
        assert((16 * h + dv) * p == h * (16 * p) + dv * p) by (nonlinear_arith);
    }
}

/// The little-endian hexadecimal digits of `x`, lowest first, `w` of them.
fn divmod_digits(x: u64, w: usize) -> (d: Vec<u8>)
    requires
        w <= 16,
        (x as int) < pow16(w as nat),
    ensures
        d@.len() == w,
        forall|k: int| 0 <= k < w ==> (#[trigger] d@[k]) < 16,
        le_val_upto(d@, w as int) == x as int,
{
    let mut rem = x;
    let mut d: Vec<u8> = Vec::new();
    proof {
        assert(pow16(0) == 1);
        assert(le_val_upto(d@, 0) == 0);
    }
    for j in 0..w
        invariant
            w <= 16,
            (x as int) < pow16(w as nat),
            d@.len() == j,
            forall|k: int| 0 <= k < j ==> (#[trigger] d@[k]) < 16,
            x as int == (rem as int) * pow16(j as nat) + le_val_upto(d@, j as int),
    {
        let dn = (rem % 16) as u8;
        let rem1 = rem / 16;
        proof {
            let p = pow16(j as nat) as int;
            assert(pow16((j + 1) as nat) == 16 * pow16(j as nat));
            assert((rem as int) == 16 * (rem1 as int) + (dn as int));
            assert((16 * (rem1 as int) + (dn as int)) * p == (rem1 as int) * (16 * p) + (
            dn as int) * p) by (nonlinear_arith);
        }
        let ghost d_old = d@;
        d.push(dn);
        rem = rem1;
        proof {
            lemma_le_val_prefix(d@, d_old, j as int);
            assert(le_val_upto(d@, j + 1 as int) == le_val_upto(d@, j as int) + (dn as int)
                * pow16(j as nat));
        }
    }
    proof {
        lemma_le_val_nonneg(d@, w as int);
        if rem >= 1 {
            assert((rem as int) * pow16(w as nat) >= pow16(w as nat)) by (nonlinear_arith)
                requires rem >= 1, pow16(w as nat) >= 0;
        }
    }
    d
}

/// A one-character string holding the canonical digit of value `v`.
fn hex_digit_str(v: u8) -> (r: &'static str)
    requires
        v < 16,
    ensures
        r@.len() == 1,
        hex_digit_val(r@[0]) == v as int,
        is_lower_hex(r@[0]),
{
    proof {
        reveal_strlit("0");
        reveal_strlit("1");
        reveal_strlit("2");
        reveal_strlit("3");
        reveal_strlit("4");
        reveal_strlit("5");
        reveal_strlit("6");
        reveal_strlit("7");
        reveal_strlit("8");
        reveal_strlit("9");
        reveal_strlit("a");
        reveal_strlit("b");
        reveal_strlit("c");
        reveal_strlit("d");
        reveal_strlit("e");
        reveal_strlit("f");
    }
    match v {
        0 => "0",
        1 => "1",
        2 => "2",
        3 => "3",
        4 => "4",
        5 => "5",
        6 => "6",
        7 => "7",
        8 => "8",
        9 => "9",
        10 => "a",
        11 => "b",
        12 => "c",
        13 => "d",
        14 => "e",
        _ => "f",
    }
}

/// The canonical `w`-digit rendering of `x`.
fn hex_frag(x: u64, w: usize) -> (r: String)
    requires
        w <= 16,
        (x as int) < pow16(w as nat),
    ensures
        r@.len() == w,
        forall|t: int| 0 <= t < w ==> is_lower_hex(#[trigger] r@[t]),
        all_hex(r@),
        hex_val(r@) == x as int,
{
    let d = divmod_digits(x, w);
    let mut out = String::new();
    for i in 0..w
        invariant
            w <= 16,
            d@.len() == w,
            forall|k: int| 0 <= k < w ==> (#[trigger] d@[k]) < 16,
            le_val_upto(d@, w as int) == x as int,
            out@.len() == i,
            forall|t: int| 0 <= t < i ==> is_lower_hex(#[trigger] out@[t]),
            forall|t: int|
                0 <= t < i ==> hex_digit_val(#[trigger] out@[t]) == d@[w - 1 - t] as int,
    {
        let frag = hex_digit_str(d[w - 1 - i]);
        out.append(frag);
    }
    proof {
        lemma_be_of_le(out@, d@, w as int, w as int);
        assert(pow16(((w as int) - (w as int)) as nat) == 1);
        assert(le_val_upto(d@, (w as int) - (w as int)) == 0);
        assert(le_val_upto(d@, w as int) == hex_val_upto(out@, w as int) * 1 + 0);
    }
    out
}

/// The value of a hexadecimal digit character, or 16 for any other
/// character.
fn hex_digit_value(c: char) -> (v: u8)
    ensures
        v as int == hex_digit_val(c),
{
    let u = c as u32;
    if 48 <= u && u <= 57 {
        (u - 48) as u8
    } else if 97 <= u && u <= 102 {
        (u - 87) as u8
    } else if 65 <= u && u <= 70 {
        (u - 55) as u8
    } else {
        16
    }
}

/// Parses one half of the canonical rendering: `w` digits of `s` starting
/// at `off`, as a value.
fn parse_frag(s: &str, off: usize, w: usize) -> (r: Option<u64>)
    requires
        w <= 16,
        off + w <= s@.len(),
        off + w <= usize::MAX,
    ensures
        match r {
            Some(v) => {
                &&& all_hex(s@.subrange(off as int, off + w as int))
                &&& v as int == hex_val(s@.subrange(off as int, off + w as int))
                &&& (v as int) < pow16(w as nat)
            },
            None => !all_hex(s@.subrange(off as int, off + w as int)),
        },
{
    let ghost frag = s@.subrange(off as int, off + w as int);
    let mut acc: u64 = 0;
    for i in 0..w
        invariant
            w <= 16,
            off + w <= s@.len(),
            off + w <= usize::MAX,
            frag == s@.subrange(off as int, off + w as int),
            acc as int == hex_val_upto(frag, i as int),
            (acc as int) < pow16(i as nat),
            forall|k: int| 0 <= k < i ==> is_hex_digit(#[trigger] frag[k]),
    {
        let c = s.get_char(off + i);
        proof {
            assert(frag[i as int] == s@[off + i]);
        }
        let v = hex_digit_value(c);
        if v >= 16 {
            return None;
        }
        proof {
            lemma_pow16_values();
            lemma_pow16_mono(i as nat, 15);
            assert(pow16((i + 1) as nat) == 16 * pow16(i as nat));
        }
        acc = acc * 16 + (v as u64);
    }
    proof {
        assert(frag.len() == w);
    }
    Some(acc)
}

impl RecordId {
    /// An identifier is valid when it is not the all-zero sentinel.
    pub open spec fn spec_is_valid(self) -> bool {
        !(self.hi == 0 && self.lo == 0)
    }

    pub fn is_valid(&self) -> (r: bool)
        ensures
            r == self.spec_is_valid(),
    {
        !(self.hi == 0 && self.lo == 0)
    }

    /// The canonical rendering: 24 hexadecimal digits, decimal digits and
    /// small letters, the high part first.
    pub fn to_hex(&self) -> (r: String)
        ensures
            r@.len() == 24,
            forall|t: int| 0 <= t < 24 ==> is_lower_hex(#[trigger] r@[t]),
            all_hex(r@),
            hex_val(r@.subrange(0, 8)) == self.hi as int,
            hex_val(r@.subrange(8, 24)) == self.lo as int,
            spec_parse_id(r@) == Some(*self),
    {
        proof {
            lemma_pow16_values();
        }
        let head = hex_frag(self.hi as u64, 8);
        let tail = hex_frag(self.lo, 16);
        let out = head.concat(tail.as_str());
        proof {
            assert(out@.subrange(0, 8) =~= head@);
            assert(out@.subrange(8, 24) =~= tail@);
        }
        out
    }

    /// Parses the canonical rendering, either letter case; anything but
    /// 24 hexadecimal digits is rejected.
    pub fn parse_hex(s: &str) -> (r: Option<RecordId>)
        ensures
            r == spec_parse_id(s@),
    {
        let n = s.unicode_len();
        if n != 24 {
            return None;
        }
        proof {
            lemma_pow16_values();
        }
        let hi = match parse_frag(s, 0, 8) {
            Some(v) => v,
            None => {
                proof {
                    let k = choose|k: int| 0 <= k < 8 && !is_hex_digit(s@.subrange(0, 8)[k]);
                    assert(s@.subrange(0, 8)[k] == s@[k]);
                }
                return None;
            },
        };
        let lo = match parse_frag(s, 8, 16) {
            Some(v) => v,
            None => {
                proof {
                    let k = choose|k: int| 0 <= k < 16 && !is_hex_digit(s@.subrange(8, 24)[k]);
                    assert(s@.subrange(8, 24)[k] == s@[k + 8]);
                }
                return None;
            },
        };
        proof {
            assert forall|i: int| 0 <= i < 24 implies is_hex_digit(#[trigger] s@[i]) by {
                if i < 8 {
                    assert(s@.subrange(0, 8)[i] == s@[i]);
                } else {
                    assert(s@.subrange(8, 24)[i - 8] == s@[i]);
                }
            }
        }
        Some(RecordId { hi: hi as u32, lo })
    }
}

} // verus!
