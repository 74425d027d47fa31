//! Textual building blocks shared by every renderer in the crate: decimal
//! numerals, separator-joined lists, and the handful of string primitives
//! that the rest of the library is proved against.

use itertools::Itertools;
use vstd::prelude::*;
use vstd::string::StringExecFns;

verus! {

/// The character for a single decimal digit.
pub open spec fn digit_char(d: nat) -> char {
    if d == 0 {
        '0'
    } else if d == 1 {
        '1'
    } else if d == 2 {
        '2'
    } else if d == 3 {
        '3'
    } else if d == 4 {
        '4'
    } else if d == 5 {
        '5'
    } else if d == 6 {
        '6'
    } else if d == 7 {
        '7'
    } else if d == 8 {
        '8'
    } else {
        '9'
    }
}

/// Decimal numeral of a natural number, most significant digit first,
/// without leading zeros (a single `0` for zero).
pub open spec fn dec_digits(n: nat) -> Seq<char>
    decreases n,
{
    if n < 10 {
        seq![digit_char(n)]
    } else {
        dec_digits(n / 10).push(digit_char(n % 10))
    }
}

/// Exactly `width` decimal digits of `n % 10^width`, most significant first,
/// padded on the left with zeros.
pub open spec fn frac_digits(n: nat, width: nat) -> Seq<char>
    decreases width,
{
    if width == 0 {
        Seq::<char>::empty()
    } else {
        frac_digits(n / 10, (width - 1) as nat).push(digit_char(n % 10))
    }
}

/// Ten to the power `e`.
pub open spec fn pow10(e: nat) -> nat
    decreases e,
{
    if e == 0 {
        1
    } else {
        10 * pow10((e - 1) as nat)
    }
}

/// The parts joined by the separator: nothing for an empty list, and the
/// separator between each adjacent pair otherwise.
pub open spec fn join_seq(parts: Seq<Seq<char>>, sep: Seq<char>) -> Seq<char>
    decreases parts.len(),
{
    if parts.len() == 0 {
        Seq::<char>::empty()
    } else if parts.len() == 1 {
        parts[0]
    } else {
        join_seq(parts.drop_last(), sep) + sep + parts.last()
    }
}

pub proof fn lemma_pow10_bounded(e: nat)
    requires
        e <= 19,
    ensures
        pow10(e) <= 10_000_000_000_000_000_000,
{
    lemma_pow10_grows(e, 19);
    assert(pow10(0) == 1);
    assert(pow10(1) == 10);
    assert(pow10(2) == 100);
    assert(pow10(3) == 1000);
    assert(pow10(4) == 10000);
    assert(pow10(5) == 100000);
    assert(pow10(6) == 1000000);
    assert(pow10(7) == 10000000);
    assert(pow10(8) == 100000000);
    assert(pow10(9) == 1000000000);
    assert(pow10(10) == 10000000000);
    assert(pow10(11) == 100000000000);
    assert(pow10(12) == 1000000000000);
    assert(pow10(13) == 10000000000000);
    assert(pow10(14) == 100000000000000);
    assert(pow10(15) == 1000000000000000);
    assert(pow10(16) == 10000000000000000);
    assert(pow10(17) == 100000000000000000);
    assert(pow10(18) == 1000000000000000000);
    assert(pow10(19) == 10000000000000000000);
}

pub proof fn lemma_pow10_grows(a: nat, b: nat)
    requires
        a <= b,
    ensures
        pow10(a) <= pow10(b),
        pow10(a) >= 1,
    decreases b,
{
    if a < b {
        lemma_pow10_grows(a, (b - 1) as nat);
    } else if b > 0 {
        lemma_pow10_grows((a - 1) as nat, (b - 1) as nat);
    }
}

/// Ten to the power `e`, as a machine word.
pub fn pow10_u64(e: u32) -> (r: u64)
    requires
        e <= 19,
    ensures
        r as nat == pow10(e as nat),
    decreases e,
{
    if e == 0 {
        1
    } else {
        let p = pow10_u64(e - 1);
        proof {
            assert(10 * (p as nat) == pow10(e as nat));
            lemma_pow10_bounded(e as nat);
        }
        10 * p
    }
}

/// The single-character numeral for a digit.
pub fn digit_str(d: u64) -> (r: &'static str)
    requires
        d < 10,
    ensures
        r@ == seq![digit_char(d as nat)],
{
    let r: &'static str = if d == 0 {
        "0"
    } else if d == 1 {
        "1"
    } else if d == 2 {
        "2"
    } else if d == 3 {
        "3"
    } else if d == 4 {
        "4"
    } else if d == 5 {
        "5"
    } else if d == 6 {
        "6"
    } else if d == 7 {
        "7"
    } else if d == 8 {
        "8"
    } else {
        "9"
    };
    proof {
        reveal_strlit("0");
        reveal_strlit("1");
        reveal_strlit("2");
        reveal_strlit("3");
        reveal_strlit("4");
        reveal_strlit("5");
        reveal_strlit("6");
        reveal_strlit("7");
        reveal_strlit("8");
        reveal_strlit("9");
        assert(r@ =~= seq![digit_char(d as nat)]);
    }
    r
}

/// Decimal numeral of `n`.
pub fn render_u64(n: u64) -> (s: String)
    ensures
        s@ == dec_digits(n as nat),
    decreases n,
{
    if n < 10 {
        digit_str(n).to_owned()
    } else {
        proof {
            assert(n / 10 < n) by (nonlinear_arith)
                requires
                    n >= 10,
            ;
        }
        let mut s = render_u64(n / 10);
        s.append(digit_str(n % 10));
        proof {
            assert(s@ =~= dec_digits(n as nat));
        }
        s
    }
}

/// The last `width` decimal digits of `n`, zero padded.
pub fn render_frac(n: u64, width: u32) -> (s: String)
    ensures
        s@ == frac_digits(n as nat, width as nat),
    decreases width,
{
    if width == 0 {
        String::new()
    } else {
        let mut s = render_frac(n / 10, width - 1);
        s.append(digit_str(n % 10));
        proof {
            assert(s@ =~= frac_digits(n as nat, width as nat));
        }
        s
    }
}

/// Textual form of a signed 32-bit integer.
pub open spec fn int_digits(v: int) -> Seq<char> {
    if v < 0 {
        seq!['-'] + dec_digits((-v) as nat)
    } else {
        dec_digits(v as nat)
    }
}

/// Decimal numeral of a signed 32-bit integer.
pub fn render_i32(v: i32) -> (s: String)
    ensures
        s@ == int_digits(v as int),
{
    if v >= 0 {
        render_u64(v as u64)
    } else {
        let magnitude: u64 = ((-(v + 1)) as u64) + 1;
        proof {
            assert(magnitude as int == -(v as int));
        }
        let mut s = "-".to_owned();
        s.append(render_u64(magnitude).as_str());
        proof {
            reveal_strlit("-");
            assert(s@ =~= int_digits(v as int));
        }
        s
    }
}

/// One line per option: the indent prefix, the option's text, a comma and
/// a line break - the one-per-line layout of every attribute block.
pub open spec fn option_lines(opts: Seq<Seq<char>>, prefix: Seq<char>) -> Seq<char>
    decreases opts.len(),
{
    if opts.len() == 0 {
        Seq::<char>::empty()
    } else {
        option_lines(opts.drop_last(), prefix) + prefix + opts.last() + ",\n"@
    }
}

pub proof fn lemma_option_lines_push(opts: Seq<Seq<char>>, prefix: Seq<char>, x: Seq<char>)
    ensures
        option_lines(opts.push(x), prefix) == option_lines(opts, prefix) + prefix + x + ",\n"@,
{
    assert(opts.push(x).drop_last() =~= opts);
    assert(opts.push(x).last() == x);
}

/// The character sequences of a sequence of strings.
pub open spec fn strings_view(v: Seq<String>) -> Seq<Seq<char>> {
    v.map(|i: int, s: String| s@)
}

/// Renders a sequence of strings joined with `", "`.
pub fn render_strings_joined(values: &Vec<String>) -> (r: String)
    ensures
        r@ == join_seq(strings_view(values@), seq![',', ' ']),
{
    let r = join_with(values, ", ");
    proof {
        reveal_strlit(", ");
        assert(", "@ =~= seq![',', ' ']);
    }
    r
}

/// Relies on `<str as PartialEq>::eq`: two string slices are equal exactly
/// when their character sequences are equal.
#[verifier::external_body]
pub fn str_eq(a: &str, b: &str) -> (r: bool)
    ensures
        r == (a@ == b@),
{
    a == b
}

/// Relies on `itertools::Itertools::join`: the items' text in order with the
/// separator between each adjacent pair, and nothing for an empty list.
#[verifier::external_body]
pub fn join_with(parts: &Vec<String>, sep: &str) -> (r: String)
    ensures
        r@ == join_seq(parts@.map(|i: int, p: String| p@), sep@),
{
    parts.iter().join(sep)
}

} // verus!
