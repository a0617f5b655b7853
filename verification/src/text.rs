//! Plain-text helpers: decimal rendering and parsing of signed integers,
//! and ASCII case-insensitive comparison of character sequences.

use vstd::prelude::*;
use vstd::string::StrSliceExecFns;
use vstd::string::StringExecFns;

verus! {

/// The character for a single decimal digit value.
pub open spec fn digit_char_of(d: nat) -> char {
    if d == 0 {
        '0'
    } else if d == 1 {
        '1'
    } else if d == 2 {
        '2'
    } else if d == 3 {
        '3'
    } else if d == 4 {
        '4'
    } else if d == 5 {
        '5'
    } else if d == 6 {
        '6'
    } else if d == 7 {
        '7'
    } else if d == 8 {
        '8'
    } else {
        '9'
    }
}

pub open spec fn is_digit_char(c: char) -> bool {
    48 <= c as u32 && c as u32 <= 57
}

pub open spec fn digit_val(c: char) -> nat {
    (c as u32 - 48) as nat
}

/// The decimal digits of a non-negative integer, most significant first.
pub open spec fn dec_digits(n: nat) -> Seq<char>
    decreases n,
{
    if n < 10 {
        seq![digit_char_of(n)]
    } else {
        dec_digits(n / 10).push(digit_char_of(n % 10))
    }
}

/// The decimal rendering of a signed integer, as `i64::to_string` writes it.
pub open spec fn dec_int_chars(t: int) -> Seq<char> {
    if t < 0 {
        seq!['-'] + dec_digits((-t) as nat)
    } else {
        dec_digits(t as nat)
    }
}

fn digit_str(d: u64) -> (r: &'static str)
    requires
        d < 10,
    ensures
        r@ == seq![digit_char_of(d as nat)],
{
    proof {
        reveal_strlit("0");
        reveal_strlit("1");
        reveal_strlit("2");
        reveal_strlit("3");
        reveal_strlit("4");
        reveal_strlit("5");
        reveal_strlit("6");
        reveal_strlit("7");
        reveal_strlit("8");
        reveal_strlit("9");
        assert("0"@ =~= seq!['0']);
        assert("1"@ =~= seq!['1']);
        assert("2"@ =~= seq!['2']);
        assert("3"@ =~= seq!['3']);
        assert("4"@ =~= seq!['4']);
        assert("5"@ =~= seq!['5']);
        assert("6"@ =~= seq!['6']);
        assert("7"@ =~= seq!['7']);
        assert("8"@ =~= seq!['8']);
        assert("9"@ =~= seq!['9']);
    }
    match d {
        0 => "0",
        1 => "1",
        2 => "2",
        3 => "3",
        4 => "4",
        5 => "5",
        6 => "6",
        7 => "7",
        8 => "8",
        _ => "9",
    }
}

fn push_dec_digits(s: &mut String, n: u64)
    ensures
        final(s)@ == old(s)@ + dec_digits(n as nat),
    decreases n,
{
    if n >= 10 {
        push_dec_digits(s, n / 10);
    }
    let d: u64 = n % 10;
    s.append(digit_str(d));
    proof {
        if n >= 10 {
            assert(dec_digits(n as nat) =~= dec_digits((n / 10) as nat) + seq![
                digit_char_of((n % 10) as nat),
            ]);
            assert(old(s)@ + dec_digits((n / 10) as nat) + seq![digit_char_of((n % 10) as nat)]
                =~= old(s)@ + dec_digits(n as nat));
        } else {
            assert(dec_digits(n as nat) =~= seq![digit_char_of(n as nat)]);
        }
    }
}

/// Renders a signed integer in decimal, exactly as the standard library does.
pub fn i64_to_string(t: i64) -> (s: String)
    ensures
        s@ == dec_int_chars(t as int),
{
    let mut s = String::new();
    if t < 0 {
        s.append("-");
        proof {
            reveal_strlit("-");
            assert(s@ =~= seq!['-']);
        }
        let mag: u64 = if t == i64::MIN {
            9223372036854775808u64
        } else {
            (-t) as u64
        };
        push_dec_digits(&mut s, mag);
        proof {
            assert(s@ =~= seq!['-'] + dec_digits(mag as nat));
        }
    } else {
        push_dec_digits(&mut s, t as u64);
        proof {
            assert(s@ =~= dec_digits((t as u64) as nat));
        }
    }
    s
}

/// The numeric value of a sequence of decimal digits.
pub open spec fn dec_seq_val(s: Seq<char>) -> nat
    decreases s.len(),
{
    if s.len() == 0 {
        0
    } else {
        dec_seq_val(s.drop_last()) * 10 + digit_val(s.last())
    }
}

pub open spec fn all_digit_chars(s: Seq<char>) -> bool {
    forall|i: int| 0 <= i < s.len() ==> is_digit_char(#[trigger] s[i])
}

/// What `str::parse::<i64>` accepts and returns: an optional sign, then one
/// or more decimal digits, whose value fits in the type.
pub open spec fn parse_i64_chars(s: Seq<char>) -> Option<i64> {
    let ds = if s.len() > 0 && (s[0] == '-' || s[0] == '+') {
        s.drop_first()
    } else {
        s
    };
    let neg = s.len() > 0 && s[0] == '-';
    if ds.len() == 0 || !all_digit_chars(ds) {
        None
    } else {
        let v: int = if neg {
            -(dec_seq_val(ds) as int)
        } else {
            dec_seq_val(ds) as int
        };
        if i64::MIN <= v <= i64::MAX {
            Some(v as i64)
        } else {
            None
        }
    }
}

/// Digit values already read bound the value of the whole digit string:
/// appending further digits can only grow it.
proof fn lemma_dec_seq_val_prefix(s: Seq<char>, i: int)
    requires
        0 <= i <= s.len(),
    ensures
        dec_seq_val(s.take(i)) <= dec_seq_val(s),
    decreases s.len() - i,
{
    if i < s.len() {
        assert(s.take(i + 1).drop_last() =~= s.take(i));
        assert(dec_seq_val(s.take(i + 1)) == dec_seq_val(s.take(i)) * 10 + digit_val(
            s.take(i + 1).last(),
        ));
        assert(dec_seq_val(s.take(i)) <= dec_seq_val(s.take(i)) * 10);
        lemma_dec_seq_val_prefix(s, i + 1);
    } else {
        assert(s.take(i) =~= s);
    }
}

/// Parses a signed 64-bit integer from decimal text, with the standard
/// library's semantics: an optional sign, one or more digits, and a value
/// that fits; anything else yields nothing.
pub fn parse_i64(s: &str) -> (r: Option<i64>)
    ensures
        r == parse_i64_chars(s@),
{
    let n: usize = s.unicode_len();
    if n == 0 {
        return None;
    }
    let c0: char = s.get_char(0);
    let neg: bool = c0 == '-';
    let start: usize = if c0 == '-' || c0 == '+' {
        1
    } else {
        0
    };
    let ghost ds: Seq<char> = if start == 1 {
        s@.drop_first()
    } else {
        s@
    };
    if n == start {
        return None;
    }
    // The largest magnitude that still fits is 2^63 for a negative value and
    // 2^63 - 1 for a non-negative one.
    let last_max: u64 = if neg {
        8
    } else {
        7
    };
    let mut acc: u64 = 0;
    let mut i: usize = start;
    while i < n
        invariant
            start <= i <= n,
            n == s@.len(),
            start == 0 || start == 1,
            start == 1 ==> s@.len() > 0 && (s@[0] == '-' || s@[0] == '+'),
            start == 0 ==> !(s@[0] == '-' || s@[0] == '+'),
            neg == (s@[0] == '-'),
            ds == (if start == 1 {
                s@.drop_first()
            } else {
                s@
            }),
            n - start == ds.len(),
            last_max == (if neg {
                8int
            } else {
                7int
            }),
            all_digit_chars(ds.take(i - start)),
            acc == dec_seq_val(ds.take(i - start)),
            acc as int <= 9223372036854775800int + last_max,
        decreases n - i,
    {
        let c: char = s.get_char(i);
        let cv: u32 = c as u32;
        proof {
            assert(ds[i - start] == s@[i as int]);
        }
        if !(48 <= cv && cv <= 57) {
            proof {
                assert(!is_digit_char(ds[i - start]));
                assert(!all_digit_chars(ds));
            }
            return None;
        }
        let d: u64 = (cv - 48) as u64;
        proof {
            assert(ds.take(i - start + 1).drop_last() =~= ds.take(i - start));
            assert(ds.take(i - start + 1).last() == ds[i - start]);
            assert(dec_seq_val(ds.take(i - start + 1)) == acc * 10 + d);
        }
        if acc > 922337203685477580u64 || (acc == 922337203685477580u64 && d > last_max) {
            // The value read so far already exceeds what fits; the whole
            // digit string can only be at least as large.
            proof {
                assert(dec_seq_val(ds.take(i - start + 1)) > 9223372036854775800int + last_max);
                lemma_dec_seq_val_prefix(ds, i - start + 1);
                if all_digit_chars(ds) {
                    assert(dec_seq_val(ds) > 9223372036854775800int + last_max);
                }
            }
            return None;
        }
        acc = acc * 10 + d;
        i = i + 1;
    }
    proof {
        assert(ds.take(n - start) =~= ds);
    }
    if neg {
        if acc == 9223372036854775808u64 {
            Some(i64::MIN)
        } else {
            Some(-(acc as i64))
        }
    } else {
        Some(acc as i64)
    }
}

pub open spec fn is_ascii_upper(c: char) -> bool {
    65 <= c as u32 && c as u32 <= 90
}

/// Two characters are equal up to ASCII case: they are the same character,
/// or one is an ASCII capital letter and the other its small form.
pub open spec fn eq_ci_char(a: char, b: char) -> bool {
    a == b || (is_ascii_upper(a) && a as u32 + 32 == b as u32) || (is_ascii_upper(b) && b as u32
        + 32 == a as u32)
}

/// Character sequences equal up to ASCII case, position by position.
pub open spec fn eq_ci(a: Seq<char>, b: Seq<char>) -> bool {
    a.len() == b.len() && forall|i: int| 0 <= i < a.len() ==> eq_ci_char(a[i], #[trigger] b[i])
}

proof fn lemma_eq_ci_char_joins(a: char, b: char, c: char)
    requires
        eq_ci_char(a, b),
        eq_ci_char(a, c),
    ensures
        eq_ci_char(b, c),
{
}

/// Equality up to ASCII case sorts sequences into classes: two sequences
/// equal up to case agree on which further sequences they equal up to
/// case.
pub proof fn lemma_eq_ci_same_class(a: Seq<char>, b: Seq<char>, t: Seq<char>)
    requires
        eq_ci(a, b),
    ensures
        eq_ci(a, t) == eq_ci(b, t),
{
    if eq_ci(a, t) {
        assert forall|i: int| 0 <= i < b.len() implies eq_ci_char(b[i], #[trigger] t[i]) by {
            lemma_eq_ci_char_joins(a[i], b[i], t[i]);
        }
    }
    if eq_ci(b, t) {
        assert forall|i: int| 0 <= i < a.len() implies eq_ci_char(a[i], #[trigger] t[i]) by {
            lemma_eq_ci_char_joins(b[i], a[i], t[i]);
        }
    }
}

fn char_eq_ci(a: char, b: char) -> (r: bool)
    ensures
        r == eq_ci_char(a, b),
{
    let av: u32 = a as u32;
    let bv: u32 = b as u32;
    av == bv || (65 <= av && av <= 90 && av + 32 == bv) || (65 <= bv && bv <= 90 && bv + 32 == av)
}

/// Compares two strings for equality up to ASCII case.
pub fn str_eq_ignore_ascii_case(a: &str, b: &str) -> (r: bool)
    ensures
        r == eq_ci(a@, b@),
{
    let an: usize = a.unicode_len();
    let bn: usize = b.unicode_len();
    if an != bn {
        return false;
    }
    let mut i: usize = 0;
    while i < an
        invariant
            0 <= i <= an,
            an == a@.len(),
            an == b@.len(),
            forall|j: int| 0 <= j < i ==> eq_ci_char(a@[j], #[trigger] b@[j]),
        decreases an - i,
    {
        if !char_eq_ci(a.get_char(i), b.get_char(i)) {
            return false;
        }
        i = i + 1;
    }
    true
}

/// Compares two strings for plain equality, character by character.
pub fn str_eq(a: &str, b: &str) -> (r: bool)
    ensures
        r == (a@ == b@),
{
    let an: usize = a.unicode_len();
    let bn: usize = b.unicode_len();
    if an != bn {
        return false;
    }
    let mut i: usize = 0;
    while i < an
        invariant
            0 <= i <= an,
            an == a@.len(),
            an == b@.len(),
            forall|j: int| 0 <= j < i ==> a@[j] == #[trigger] b@[j],
        decreases an - i,
    {
        if a.get_char(i) != b.get_char(i) {
            return false;
        }
        i = i + 1;
    }
    proof {
        assert(a@ =~= b@);
    }
    true
}

} // verus!
