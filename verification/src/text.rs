//! Verified text helpers: decimal and hexadecimal rendering of integers,
//! substring search, and a trusted case-folding wrapper.

use vstd::prelude::*;
use vstd::string::StrSliceExecFns;
use vstd::string::StringExecFns;

verus! {

/// The character for a single decimal digit.
pub open spec fn dec_digit_char(d: nat) -> char {
    ((48 + (d % 10)) as u8) as char
}

/// The decimal representation of `n`, most significant digit first,
/// without leading zeros (`0` is rendered as "0").
pub open spec fn dec_rep(n: nat) -> Seq<char>
    decreases n,
{
    if n < 10 {
        seq![dec_digit_char(n)]
    } else {
        dec_rep(n / 10).push(dec_digit_char(n % 10))
    }
}

/// The decimal representation of a signed value: a leading '-' for
/// negative values, then the magnitude's digits.
pub open spec fn dec_rep_signed(n: int) -> Seq<char> {
    if n >= 0 {
        dec_rep(n as nat)
    } else {
        seq!['-'] + dec_rep((-n) as nat)
    }
}

/// The character for a single hexadecimal digit (lowercase).
pub open spec fn hex_digit_char(d: nat) -> char {
    if d % 16 < 10 {
        ((48 + (d % 16)) as u8) as char
    } else {
        ((87 + (d % 16)) as u8) as char
    }
}

/// The hexadecimal representation of `n`, lowercase, without leading
/// zeros (`0` is rendered as "0").
pub open spec fn hex_rep(n: nat) -> Seq<char>
    decreases n,
{
    if n < 16 {
        seq![hex_digit_char(n)]
    } else {
        hex_rep(n / 16).push(hex_digit_char(n % 16))
    }
}

/// One-character string for a decimal digit.
fn dec_digit_str(d: u64) -> (r: &'static str)
    requires
        d < 10,
    ensures
        r@ =~= seq![dec_digit_char(d as nat)],
{
    proof {
        reveal_strlit("0");
        reveal_strlit("1");
        reveal_strlit("2");
        reveal_strlit("3");
        reveal_strlit("4");
        reveal_strlit("5");
        reveal_strlit("6");
        reveal_strlit("7");
        reveal_strlit("8");
        reveal_strlit("9");
    }
    match d {
        0 => "0",
        1 => "1",
        2 => "2",
        3 => "3",
        4 => "4",
        5 => "5",
        6 => "6",
        7 => "7",
        8 => "8",
        _ => "9",
    }
}

/// One-character string for a hexadecimal digit (lowercase).
fn hex_digit_str(d: u64) -> (r: &'static str)
    requires
        d < 16,
    ensures
        r@ =~= seq![hex_digit_char(d as nat)],
{
    proof {
        reveal_strlit("a");
        reveal_strlit("b");
        reveal_strlit("c");
        reveal_strlit("d");
        reveal_strlit("e");
        reveal_strlit("f");
    }
    if d < 10 {
        dec_digit_str(d)
    } else {
        match d {
            10 => "a",
            11 => "b",
            12 => "c",
            13 => "d",
            14 => "e",
            _ => "f",
        }
    }
}

/// Render `n` in decimal.
pub fn u64_to_dec(n: u64) -> (s: String)
    ensures
        s@ == dec_rep(n as nat),
{
    let mut digits: Vec<u64> = Vec::new();
    let mut m: u64 = n;
    loop
        invariant_except_break
            forall|k: int| 0 <= k < digits@.len() ==> digits@[k] < 10,
            dec_rep(n as nat) =~= dec_rep(m as nat) + digit_chars(digits@).reverse(),
        ensures
            forall|k: int| 0 <= k < digits@.len() ==> digits@[k] < 10,
            dec_rep(n as nat) =~= digit_chars(digits@).reverse(),
        decreases m,
    {
        let d: u64 = m % 10;
        let ghost old_digits = digits@;
        digits.push(d);
        proof {
            lemma_digit_chars_push(old_digits, d);
        }
        m = m / 10;
        if m == 0 {
            proof {
                assert(dec_rep(n as nat) =~= digit_chars(digits@).reverse());
            }
            break;
        }
        proof {
            assert(dec_rep((10 * (m as nat) + d as nat) as nat) =~= dec_rep(m as nat).push(
                dec_digit_char(d as nat),
            ));
            assert(dec_rep(n as nat) =~= dec_rep(m as nat) + digit_chars(digits@).reverse());
        }
    }
    digits_to_string(&digits, false)
}

/// The decimal representation of `n` in exactly `width` digits, with
/// leading zeros; digits beyond the width fall away.
pub open spec fn dec_rep_width(n: nat, width: nat) -> Seq<char>
    decreases width,
{
    if width == 0 {
        Seq::empty()
    } else {
        dec_rep_width(n / 10, (width - 1) as nat).push(dec_digit_char(n % 10))
    }
}

/// Render `n` in decimal, zero-padded to exactly `width` digits.
pub fn u64_to_dec_width(n: u64, width: usize) -> (s: String)
    ensures
        s@ == dec_rep_width(n as nat, width as nat),
{
    let mut digits: Vec<u64> = Vec::new();
    let mut m: u64 = n;
    let mut w: usize = width;
    while w > 0
        invariant
            w <= width,
            forall|k: int| 0 <= k < digits@.len() ==> digits@[k] < 10,
            dec_rep_width(n as nat, width as nat) =~= dec_rep_width(m as nat, w as nat)
                + digit_chars(digits@).reverse(),
        decreases w,
    {
        let d: u64 = m % 10;
        let ghost old_digits = digits@;
        digits.push(d);
        proof {
            lemma_digit_chars_push(old_digits, d);
        }
        m = m / 10;
        w = w - 1;
        proof {
            assert(dec_rep_width(n as nat, width as nat) =~= dec_rep_width(m as nat, w as nat)
                + digit_chars(digits@).reverse());
        }
    }
    proof {
        assert(dec_rep_width(m as nat, 0) =~= Seq::<char>::empty());
        assert(dec_rep_width(n as nat, width as nat) =~= digit_chars(digits@).reverse());
    }
    digits_to_string(&digits, false)
}

/// Render `n` in lowercase hexadecimal, without a prefix.
pub fn u64_to_hex(n: u64) -> (s: String)
    ensures
        s@ == hex_rep(n as nat),
{
    let mut digits: Vec<u64> = Vec::new();
    let mut m: u64 = n;
    loop
        invariant_except_break
            forall|k: int| 0 <= k < digits@.len() ==> digits@[k] < 16,
            hex_rep(n as nat) =~= hex_rep(m as nat) + hex_chars(digits@).reverse(),
        ensures
            forall|k: int| 0 <= k < digits@.len() ==> digits@[k] < 16,
            hex_rep(n as nat) =~= hex_chars(digits@).reverse(),
        decreases m,
    {
        let d: u64 = m % 16;
        let ghost old_digits = digits@;
        digits.push(d);
        proof {
            lemma_hex_chars_push(old_digits, d);
        }
        m = m / 16;
        if m == 0 {
            proof {
                assert(hex_rep(n as nat) =~= hex_chars(digits@).reverse());
            }
            break;
        }
        proof {
            assert(hex_rep((16 * (m as nat) + d as nat) as nat) =~= hex_rep(m as nat).push(
                hex_digit_char(d as nat),
            ));
            assert(hex_rep(n as nat) =~= hex_rep(m as nat) + hex_chars(digits@).reverse());
        }
    }
    digits_to_string(&digits, true)
}

/// Render a signed value in decimal.
pub fn i64_to_dec(n: i64) -> (s: String)
    ensures
        s@ == dec_rep_signed(n as int),
{
    if n >= 0 {
        u64_to_dec(n as u64)
    } else {
        let magnitude: u64 = (-(n as i128)) as u64;
        assert(magnitude as int == -(n as int));
        let mut s = String::new();
        proof {
            reveal_strlit("-");
        }
        s.append("-");
        let rest = u64_to_dec(magnitude);
        s.append(rest.as_str());
        assert(s@ =~= dec_rep_signed(n as int));
        s
    }
}

/// The digit characters (decimal) of a digit vector.
spec fn digit_chars(ds: Seq<u64>) -> Seq<char> {
    ds.map_values(|d: u64| dec_digit_char(d as nat))
}

/// The digit characters (hexadecimal) of a digit vector.
spec fn hex_chars(ds: Seq<u64>) -> Seq<char> {
    ds.map_values(|d: u64| hex_digit_char(d as nat))
}

proof fn lemma_digit_chars_push(ds: Seq<u64>, d: u64)
    ensures
        digit_chars(ds.push(d)) =~= digit_chars(ds).push(dec_digit_char(d as nat)),
{
}

proof fn lemma_hex_chars_push(ds: Seq<u64>, d: u64)
    ensures
        hex_chars(ds.push(d)) =~= hex_chars(ds).push(hex_digit_char(d as nat)),
{
}

/// Append the digits, last first, to an empty string.
fn digits_to_string(digits: &Vec<u64>, hex: bool) -> (s: String)
    requires
        forall|k: int| 0 <= k < digits@.len() ==> digits@[k] < if hex { 16u64 } else { 10u64 },
    ensures
        !hex ==> s@ =~= digit_chars(digits@).reverse(),
        hex ==> s@ =~= hex_chars(digits@).reverse(),
{
    let mut s = String::new();
    let mut i: usize = digits.len();
    while i > 0
        invariant
            i <= digits@.len(),
            forall|k: int| 0 <= k < digits@.len() ==> digits@[k] < if hex { 16u64 } else { 10u64 },
            !hex ==> s@ =~= digit_chars(digits@.skip(i as int)).reverse(),
            hex ==> s@ =~= hex_chars(digits@.skip(i as int)).reverse(),
        decreases i,
    {
        i = i - 1;
        let ghost prev = s@;
        if hex {
            s.append(hex_digit_str(digits[i]));
        } else {
            s.append(dec_digit_str(digits[i]));
        }
        proof {
            if hex {
                assert(s@ =~= hex_chars(digits@.skip(i as int)).reverse());
            } else {
                assert(s@ =~= digit_chars(digits@.skip(i as int)).reverse());
            }
        }
    }
    proof {
        assert(digits@.skip(0) =~= digits@);
    }
    s
}

/// `needle` occurs contiguously in `hay`.
pub open spec fn contains_sub(hay: Seq<char>, needle: Seq<char>) -> bool {
    exists|i: int|
        0 <= i && i + needle.len() <= hay.len() && #[trigger] hay.subrange(i, i + needle.len())
            == needle
}

/// Whether `needle` matches `hay` at offset `at`.
fn match_at(hay: &str, needle: &str, at: usize) -> (r: bool)
    requires
        at + needle@.len() <= hay@.len(),
        hay@.len() <= usize::MAX,
    ensures
        r == (hay@.subrange(at as int, at + needle@.len()) == needle@),
{
    let n = needle.unicode_len();
    let mut j: usize = 0;
    while j < n
        invariant
            n == needle@.len(),
            at + n <= hay@.len(),
            hay@.len() <= usize::MAX,
            j <= n,
            forall|k: int| 0 <= k < j ==> hay@[at + k] == needle@[k],
        decreases n - j,
    {
        if hay.get_char(at + j) != needle.get_char(j) {
            assert(hay@.subrange(at as int, at + needle@.len())[j as int] != needle@[j as int]);
            return false;
        }
        j += 1;
    }
    assert(hay@.subrange(at as int, at + needle@.len()) =~= needle@);
    true
}

/// Substring search: linear scan of every offset.
pub fn contains_substring(hay: &str, needle: &str) -> (r: bool)
    ensures
        r == contains_sub(hay@, needle@),
{
    let h = hay.unicode_len();
    let n = needle.unicode_len();
    if n > h {
        return false;
    }
    if n == 0 {
        proof {
            assert(hay@.subrange(0, 0 + needle@.len() as int) =~= needle@);
        }
        return true;
    }
    let mut i: usize = 0;
    while i <= h - n
        invariant
            h == hay@.len(),
            n == needle@.len(),
            1 <= n <= h,
            i <= h - n + 1,
            forall|k: int|
                0 <= k < i ==> #[trigger] hay@.subrange(k, k + needle@.len()) != needle@,
        decreases h - n + 1 - i,
    {
        if match_at(hay, needle, i) {
            return true;
        }
        i += 1;
    }
    false
}

/// Relies on String::push: appends exactly one character.
#[verifier::external_body]
pub fn push_char(s: &mut String, c: char)
    ensures
        final(s)@ == old(s)@ + seq![c],
{
    s.push(c);
}

/// What `str::to_lowercase` returns: a function of the characters alone.
pub uninterp spec fn lower_of(s: Seq<char>) -> Seq<char>;

/// Relies on str::to_lowercase for Unicode case folding; the result
/// depends only on the input characters. An empty input gives an empty
/// result.
#[verifier::external_body]
pub fn to_lowercase(s: &str) -> (r: String)
    ensures
        r@ == lower_of(s@),
        s@.len() == 0 ==> r@.len() == 0,
{
    s.to_lowercase()
}

} // verus!
