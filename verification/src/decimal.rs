//! Decimal digit strings: the mathematical model of unsigned decimal
//! literals, an executable renderer and an executable parser, and the
//! round-trip lemmas that connect them.

use vstd::arithmetic::div_mod::{lemma_fundamental_div_mod, lemma_fundamental_div_mod_converse};
use vstd::prelude::*;

verus! {

/// Whether a character is a decimal digit.
pub open spec fn is_digit(c: char) -> bool {
    '0' <= c && c <= '9'
}

/// The numeric value of a digit character.
pub open spec fn digit_val(c: char) -> nat {
    (c as nat - '0' as nat) as nat
}

/// The digit character for a value below ten.
pub open spec fn digit_char(d: nat) -> char {
    if d == 0 {
        '0'
    } else if d == 1 {
        '1'
    } else if d == 2 {
        '2'
    } else if d == 3 {
        '3'
    } else if d == 4 {
        '4'
    } else if d == 5 {
        '5'
    } else if d == 6 {
        '6'
    } else if d == 7 {
        '7'
    } else if d == 8 {
        '8'
    } else {
        '9'
    }
}

/// A non-empty string of decimal digits.
pub open spec fn is_dec_string(s: Seq<char>) -> bool {
    s.len() > 0 && forall|k: int| 0 <= k < s.len() ==> is_digit(#[trigger] s[k])
}

/// A decimal string in canonical form: no leading zero unless it is "0".
pub open spec fn is_canon_dec_string(s: Seq<char>) -> bool {
    is_dec_string(s) && (s.len() == 1 || s[0] != '0')
}

/// The number denoted by a digit string, most significant digit first.
pub open spec fn seq_to_nat(s: Seq<char>) -> nat
    decreases s.len(),
{
    if s.len() == 0 {
        0
    } else {
        seq_to_nat(s.drop_last()) * 10 + digit_val(s.last())
    }
}

/// The canonical decimal rendering of a number.
pub open spec fn dec_str(n: nat) -> Seq<char>
    decreases n,
{
    if n < 10 {
        seq![digit_char(n)]
    } else {
        dec_str(n / 10).push(digit_char(n % 10))
    }
}

pub open spec fn pow10(n: nat) -> nat
    decreases n,
{
    if n == 0 {
        1
    } else {
        10 * pow10((n - 1) as nat)
    }
}

pub proof fn lemma_digit_char_val(d: nat)
    requires
        d < 10,
    ensures
        is_digit(digit_char(d)),
        digit_val(digit_char(d)) == d,
{
}

pub proof fn lemma_digit_val_char(c: char)
    requires
        is_digit(c),
    ensures
        digit_val(c) < 10,
        digit_char(digit_val(c)) == c,
{
}

/// Appending digits on the right multiplies the leading value by the
/// corresponding power of ten.
pub proof fn lemma_seq_to_nat_append(a: Seq<char>, b: Seq<char>)
    ensures
        seq_to_nat(a + b) == seq_to_nat(a) * pow10(b.len()) + seq_to_nat(b),
    decreases b.len(),
{
    if b.len() == 0 {
        assert(a + b =~= a);
        assert(seq_to_nat(b) == 0);
        assert(pow10(0) == 1);
        assert(seq_to_nat(a) * 1 == seq_to_nat(a));
    } else {
        lemma_seq_to_nat_append(a, b.drop_last());
        assert((a + b).drop_last() =~= a + b.drop_last());
        assert((a + b).last() == b.last());
        let x = seq_to_nat(a);
        let y = seq_to_nat(b.drop_last());
        let p = pow10((b.len() - 1) as nat);
        let d = digit_val(b.last());
        assert(seq_to_nat(a + b) == (x * p + y) * 10 + d);
        assert((x * p + y) * 10 == x * (p * 10) + y * 10) by (nonlinear_arith);
        assert(pow10(b.len()) == 10 * p);
        assert(seq_to_nat(b) == y * 10 + d);
        assert(x * (p * 10) == x * pow10(b.len())) by (nonlinear_arith)
            requires
                p * 10 == pow10(b.len()),
        ;
        assert(seq_to_nat(a + b) == x * (p * 10) + y * 10 + d);
        assert(seq_to_nat(a + b) == x * pow10(b.len()) + y * 10 + d);
        assert(seq_to_nat(a + b) == x * pow10(b.len()) + seq_to_nat(b));
    }
}

/// A string of zeros denotes zero.
pub proof fn lemma_all_zeros(s: Seq<char>)
    requires
        forall|k: int| 0 <= k < s.len() ==> s[k] == '0',
    ensures
        seq_to_nat(s) == 0,
    decreases s.len(),
{
    if s.len() > 0 {
        lemma_all_zeros(s.drop_last());
    }
}

/// A digit string without a leading zero denotes at least ten to the
/// power of one less than its length.
pub proof fn lemma_seq_to_nat_lower(s: Seq<char>)
    requires
        is_dec_string(s),
        s[0] != '0',
    ensures
        seq_to_nat(s) >= pow10((s.len() - 1) as nat),
    decreases s.len(),
{
    if s.len() == 1 {
        assert(s.drop_last().len() == 0);
        assert(digit_val(s.last()) >= 1);
    } else {
        assert(s.drop_last()[0] == s[0]);
        lemma_seq_to_nat_lower(s.drop_last());
    }
}

/// The canonical rendering is a canonical digit string.
pub proof fn lemma_dec_str_form(n: nat)
    ensures
        is_canon_dec_string(dec_str(n)),
        n >= 1 ==> dec_str(n)[0] != '0',
        n < 10 ==> dec_str(n).len() == 1,
    decreases n,
{
    if n < 10 {
        lemma_digit_char_val(n);
    } else {
        lemma_dec_str_form(n / 10);
        lemma_digit_char_val(n % 10);
        let a = dec_str(n / 10);
        assert(dec_str(n) == a.push(digit_char(n % 10)));
        assert(forall|k: int|
            0 <= k < dec_str(n).len() ==> is_digit(#[trigger] dec_str(n)[k])) by {
            assert(forall|k: int| 0 <= k < a.len() ==> is_digit(#[trigger] a[k]));
            assert(dec_str(n).last() == digit_char(n % 10));
            assert(forall|k: int| 0 <= k < a.len() ==> dec_str(n)[k] == a[k]);
        }
        assert(dec_str(n)[0] == a[0]);
    }
}

/// Rendering then reading back yields the same number.
pub proof fn lemma_dec_str_value(n: nat)
    ensures
        seq_to_nat(dec_str(n)) == n,
    decreases n,
{
    if n < 10 {
        lemma_digit_char_val(n);
        assert(dec_str(n) == seq![digit_char(n)]);
        assert(dec_str(n).drop_last() =~= Seq::<char>::empty());
        assert(seq_to_nat(Seq::<char>::empty()) == 0);
        assert(seq_to_nat(dec_str(n)) == 0 * 10 + digit_val(digit_char(n)));
    } else {
        lemma_dec_str_value(n / 10);
        lemma_digit_char_val(n % 10);
        let s = dec_str(n);
        assert(s == dec_str(n / 10).push(digit_char(n % 10)));
        assert(s.drop_last() =~= dec_str(n / 10));
        assert(s.last() == digit_char(n % 10));
        assert(seq_to_nat(s) == (n / 10) * 10 + n % 10);
        lemma_fundamental_div_mod(n as int, 10);
        assert(n as int == 10 * ((n as int) / 10) + (n as int) % 10);
        assert((n as int) / 10 == (n / 10) as int);
        assert((n as int) % 10 == (n % 10) as int);
        assert(n == (n / 10) * 10 + n % 10);
    }
}

/// Reading a canonical digit string and rendering the value reproduces
/// the string: decimal notation without leading zeros is unambiguous.
pub proof fn lemma_canon_round_trip(s: Seq<char>)
    requires
        is_canon_dec_string(s),
    ensures
        dec_str(seq_to_nat(s)) == s,
    decreases s.len(),
{
    let v = seq_to_nat(s);
    let a = s.drop_last();
    let d = digit_val(s.last());
    lemma_digit_val_char(s.last());
    assert(v == seq_to_nat(a) * 10 + d);
    if s.len() == 1 {
        assert(a.len() == 0);
        assert(v == d && d < 10);
        assert(dec_str(v) =~= seq![s[0]]);
        assert(dec_str(v) =~= s);
    } else {
        assert(s[0] != '0');
        assert(a[0] == s[0]);
        assert(is_canon_dec_string(a)) by {
            assert(forall|k: int| 0 <= k < a.len() ==> is_digit(#[trigger] a[k]));
        }
        lemma_canon_round_trip(a);
        lemma_seq_to_nat_lower(a);
        assert(pow10((a.len() - 1) as nat) >= 1) by {
            lemma_pow10_pos((a.len() - 1) as nat);
        }
        assert(seq_to_nat(a) >= 1);
        assert(v >= 10);
        let x = seq_to_nat(a);
        lemma_fundamental_div_mod_converse(v as int, 10, x as int, d as int);
        assert(v / 10 == x && v % 10 == d);
        assert(dec_str(v) == dec_str(x).push(digit_char(d)));
        assert(dec_str(v) =~= s);
    }
}

pub proof fn lemma_pow10_pos(n: nat)
    ensures
        pow10(n) >= 1,
    decreases n,
{
    if n > 0 {
        lemma_pow10_pos((n - 1) as nat);
    }
}

/// Powers of ten are monotone in the exponent.
pub proof fn lemma_pow10_mono(a: nat, b: nat)
    requires
        a <= b,
    ensures
        pow10(a) <= pow10(b),
    decreases b,
{
    if a < b {
        lemma_pow10_mono(a, (b - 1) as nat);
        lemma_pow10_pos((b - 1) as nat);
    }
}

/// What a digit segment parses to: the denoted number, when the segment
/// is a digit string whose value fits, and nothing otherwise.
pub open spec fn spec_parse_u32(s: Seq<char>) -> Option<u32> {
    if is_dec_string(s) && seq_to_nat(s) <= u32::MAX {
        Some(seq_to_nat(s) as u32)
    } else {
        None
    }
}

/// The digit character for a value below ten, as a string slice.
fn digit_str(d: u64) -> (r: &'static str)
    requires
        d < 10,
    ensures
        r@ =~= seq![digit_char(d as nat)],
{
    if d == 0 {
        let r = "0";
        proof {
            reveal_strlit("0");
        }
        r
    } else if d == 1 {
        let r = "1";
        proof {
            reveal_strlit("1");
        }
        r
    } else if d == 2 {
        let r = "2";
        proof {
            reveal_strlit("2");
        }
        r
    } else if d == 3 {
        let r = "3";
        proof {
            reveal_strlit("3");
        }
        r
    } else if d == 4 {
        let r = "4";
        proof {
            reveal_strlit("4");
        }
        r
    } else if d == 5 {
        let r = "5";
        proof {
            reveal_strlit("5");
        }
        r
    } else if d == 6 {
        let r = "6";
        proof {
            reveal_strlit("6");
        }
        r
    } else if d == 7 {
        let r = "7";
        proof {
            reveal_strlit("7");
        }
        r
    } else if d == 8 {
        let r = "8";
        proof {
            reveal_strlit("8");
        }
        r
    } else {
        let r = "9";
        proof {
            reveal_strlit("9");
        }
        r
    }
}

/// Render a number in canonical decimal notation.
pub fn render_u64(n: u64) -> (r: String)
    ensures
        r@ == dec_str(n as nat),
    decreases n,
{
    if n < 10 {
        let r = digit_str(n).to_owned();
        proof {
            assert(r@ =~= dec_str(n as nat));
        }
        r
    } else {
        let mut r = render_u64(n / 10);
        r.append(digit_str(n % 10));
        proof {
            assert(r@ =~= dec_str((n / 10) as nat).push(digit_char((n % 10) as nat)));
            assert((n as nat) / 10 == (n / 10) as nat);
            assert((n as nat) % 10 == (n % 10) as nat);
        }
        r
    }
}

/// Render a 32-bit number in canonical decimal notation.
pub fn render_u32(n: u32) -> (r: String)
    ensures
        r@ == dec_str(n as nat),
{
    render_u64(n as u64)
}

/// Parse the digit segment `s[from..to]` as an unsigned 32-bit number.
pub fn parse_u32_digits(s: &str, from: usize, to: usize) -> (r: Option<u32>)
    requires
        from <= to <= s@.len(),
    ensures
        r == spec_parse_u32(s@.subrange(from as int, to as int)),
{
    let ghost seg = s@.subrange(from as int, to as int);
    if from == to {
        return None;
    }
    let mut i = from;
    while i < to
        invariant
            from <= i <= to <= s@.len(),
            forall|k: int| from <= k < i ==> is_digit(#[trigger] s@[k]),
        decreases to - i,
    {
        let c = s.get_char(i);
        if c < '0' || c > '9' {
            proof {
                let whole = s@.subrange(from as int, to as int);
                assert(whole[i - from] == s@[i as int]);
                assert(!is_digit(whole[i - from]));
            }
            return None;
        }
        i += 1;
    }
    proof {
        assert(forall|k: int| 0 <= k < seg.len() ==> seg[k] == s@[from + k]);
        assert(is_dec_string(seg));
    }
    let mut z = from;
    while z < to && s.get_char(z) == '0'
        invariant
            from <= z <= to <= s@.len(),
            forall|k: int| from <= k < z ==> s@[k] == '0',
        decreases to - z,
    {
        z += 1;
    }
    let ghost zeros = s@.subrange(from as int, z as int);
    let ghost rest = s@.subrange(z as int, to as int);
    proof {
        assert(seg =~= zeros + rest);
        lemma_all_zeros(zeros);
        lemma_seq_to_nat_append(zeros, rest);
        assert(seq_to_nat(seg) == seq_to_nat(rest));
    }
    if z == to {
        proof {
            assert(rest.len() == 0);
            assert(seq_to_nat(seg) == 0);
        }
        return Some(0);
    }
    if to - z > 10 {
        proof {
            assert(rest[0] == s@[z as int] && rest[0] != '0');
            assert(is_dec_string(rest)) by {
                assert(forall|k: int| 0 <= k < rest.len() ==> rest[k] == s@[z + k]);
            }
            lemma_seq_to_nat_lower(rest);
            lemma_pow10_mono(10, (rest.len() - 1) as nat);
            lemma_pow10_concrete();
            assert(seq_to_nat(seg) > u32::MAX);
        }
        return None;
    }
    let mut acc: u64 = 0;
    let mut i = z;
    proof {
        lemma_pow10_concrete();
        assert(forall|k: int| 0 <= k < rest.len() ==> rest[k] == s@[z + k]);
    }
    while i < to
        invariant
            from <= z <= i <= to <= s@.len(),
            to - z <= 10,
            forall|k: int| from <= k < to ==> is_digit(#[trigger] s@[k]),
            acc == seq_to_nat(s@.subrange(z as int, i as int)),
            acc < pow10((i - z) as nat),
            pow10(10) == 10_000_000_000,
        decreases to - i,
    {
        let c = s.get_char(i);
        let d: u64 = (c as u32 - 48) as u64;
        proof {
            assert(is_digit(s@[i as int]));
            assert(d == digit_val(s@[i as int]));
            let pre = s@.subrange(z as int, i as int);
            let cur = s@.subrange(z as int, i + 1);
            assert(cur.drop_last() =~= pre);
            assert(cur.last() == s@[i as int]);
            lemma_pow10_mono((i - z + 1) as nat, 10);
        }
        acc = acc * 10 + d;
        i += 1;
    }
    proof {
        assert(s@.subrange(z as int, to as int) =~= rest);
        assert(acc == seq_to_nat(seg));
    }
    if acc <= 0xFFFF_FFFF {
        Some(acc as u32)
    } else {
        None
    }
}

/// The concrete value of the tenth power of ten.
pub proof fn lemma_pow10_concrete()
    ensures
        pow10(10) == 10_000_000_000,
{
    assert(pow10(0) == 1);
    assert(pow10(1) == 10);
    assert(pow10(2) == 100);
    assert(pow10(3) == 1000);
    assert(pow10(4) == 10000);
    assert(pow10(5) == 100000);
    assert(pow10(6) == 1000000);
    assert(pow10(7) == 10000000);
    assert(pow10(8) == 100000000);
    assert(pow10(9) == 1000000000);
    assert(pow10(10) == 10_000_000_000);
}

} // verus!
