//! Decimal integers as text: what a rendered number looks like and which
//! texts parse to which numbers.

use crate::text::chars_of;
use vstd::prelude::*;
use vstd::string::*;

verus! {

/// Whether `c` is one of the numerals `0` to `9`.
pub open spec fn is_digit(c: char) -> bool {
    '0' <= c && c <= '9'
}

/// Whether `s` holds nothing but numerals.
pub open spec fn all_digits(s: Seq<char>) -> bool {
    forall|i: int| 0 <= i < s.len() ==> is_digit(#[trigger] s[i])
}

/// The numeral for `d`, which is `'0'` outside `0..=9`.
pub open spec fn digit_char(d: int) -> char {
    if d == 1 {
        '1'
    } else if d == 2 {
        '2'
    } else if d == 3 {
        '3'
    } else if d == 4 {
        '4'
    } else if d == 5 {
        '5'
    } else if d == 6 {
        '6'
    } else if d == 7 {
        '7'
    } else if d == 8 {
        '8'
    } else if d == 9 {
        '9'
    } else {
        '0'
    }
}

/// The number a numeral stands for, `0` for any other character.
pub open spec fn digit_value(c: char) -> int {
    if c == '1' {
        1
    } else if c == '2' {
        2
    } else if c == '3' {
        3
    } else if c == '4' {
        4
    } else if c == '5' {
        5
    } else if c == '6' {
        6
    } else if c == '7' {
        7
    } else if c == '8' {
        8
    } else if c == '9' {
        9
    } else {
        0
    }
}

/// The value of a run of numerals read as a decimal number.
pub open spec fn digits_value(s: Seq<char>) -> int
    decreases s.len(),
{
    if s.len() == 0 {
        0
    } else {
        digits_value(s.drop_last()) * 10 + digit_value(s.last())
    }
}

/// The shortest decimal numeral of a natural number.
pub open spec fn nat_digits(n: nat) -> Seq<char>
    decreases n,
{
    if n < 10 {
        seq![digit_char(n as int)]
    } else {
        nat_digits(n / 10).push(digit_char((n % 10) as int))
    }
}

/// The decimal rendering of an integer: a minus sign for negative numbers,
/// then the shortest numeral of the magnitude.
pub open spec fn int_text(v: int) -> Seq<char> {
    if v < 0 {
        seq!['-'] + nat_digits((-v) as nat)
    } else {
        nat_digits(v as nat)
    }
}

/// The integer that a text denotes within `lo..=hi`, if any. A text is an
/// optional sign followed by at least one numeral; a minus sign is only
/// understood where negative numbers exist (`lo < 0`). Numbers outside the
/// range denote nothing.
pub open spec fn parse_int(s: Seq<char>, lo: int, hi: int) -> Option<int> {
    let negative = s.len() > 0 && s[0] == '-' && lo < 0;
    let signed = s.len() > 0 && (s[0] == '+' || negative);
    let body = if signed {
        s.drop_first()
    } else {
        s
    };
    let value = if negative {
        -digits_value(body)
    } else {
        digits_value(body)
    };
    if body.len() > 0 && all_digits(body) && lo <= value <= hi {
        Some(value)
    } else {
        None
    }
}

/// The numeral of a digit is a numeral and stands for the digit.
pub proof fn lemma_digit_roundtrip(d: int)
    requires
        0 <= d <= 9,
    ensures
        is_digit(digit_char(d)),
        digit_value(digit_char(d)) == d,
{
}

/// A character stands for a digit, and a numeral is the numeral of the
/// digit it stands for.
pub proof fn lemma_digit_value_bounds(c: char)
    ensures
        0 <= digit_value(c) <= 9,
        is_digit(c) ==> digit_char(digit_value(c)) == c,
{
    if is_digit(c) {
        let u = c as u32;
        assert(48 <= u <= 57);
        assert(c == '0' || c == '1' || c == '2' || c == '3' || c == '4' || c == '5' || c == '6'
            || c == '7' || c == '8' || c == '9') by {
            if u == 48 {
                assert(c == '0');
            } else if u == 49 {
                assert(c == '1');
            } else if u == 50 {
                assert(c == '2');
            } else if u == 51 {
                assert(c == '3');
            } else if u == 52 {
                assert(c == '4');
            } else if u == 53 {
                assert(c == '5');
            } else if u == 54 {
                assert(c == '6');
            } else if u == 55 {
                assert(c == '7');
            } else if u == 56 {
                assert(c == '8');
            } else {
                assert(c == '9');
            }
        }
    }
}

/// The numeral of a natural number is made of numerals, is not empty, and
/// reads back as the number.
pub proof fn lemma_nat_digits(n: nat)
    ensures
        nat_digits(n).len() > 0,
        all_digits(nat_digits(n)),
        digits_value(nat_digits(n)) == n,
        nat_digits(n)[0] != '-',
        nat_digits(n)[0] != '+',
    decreases n,
{
    if n < 10 {
        lemma_digit_roundtrip(n as int);
        let s = nat_digits(n);
        assert(s.drop_last() =~= Seq::<char>::empty());
        assert(digits_value(s.drop_last()) == 0);
    } else {
        lemma_nat_digits(n / 10);
        lemma_digit_roundtrip((n % 10) as int);
        let p = nat_digits(n / 10);
        let s = nat_digits(n);
        assert(s.drop_last() =~= p);
        assert(s[0] == p[0]);
        assert forall|i: int| 0 <= i < s.len() implies is_digit(#[trigger] s[i]) by {
            if i < p.len() {
                assert(s[i] == p[i]);
            }
        }
    }
}

/// Reading a longer run of numerals never gives a smaller number.
pub proof fn lemma_digits_value_prefix(s: Seq<char>, k: int)
    requires
        0 <= k <= s.len(),
    ensures
        0 <= digits_value(s.subrange(0, k)) <= digits_value(s),
    decreases s.len() - k,
{
    if k == s.len() {
        assert(s.subrange(0, k) =~= s);
        lemma_digits_value_nonneg(s);
    } else {
        lemma_digits_value_prefix(s, k + 1);
        let t = s.subrange(0, k + 1);
        assert(t.drop_last() =~= s.subrange(0, k));
        lemma_digit_value_bounds(t.last());
        lemma_digits_value_nonneg(s.subrange(0, k));
    }
}

/// A run of numerals never reads as a negative number.
pub proof fn lemma_digits_value_nonneg(s: Seq<char>)
    ensures
        0 <= digits_value(s),
    decreases s.len(),
{
    if s.len() > 0 {
        lemma_digits_value_nonneg(s.drop_last());
        lemma_digit_value_bounds(s.last());
    }
}

/// A rendered integer parses back to itself in any range that holds it.
pub proof fn lemma_parse_int_text(v: int, lo: int, hi: int)
    requires
        lo <= v <= hi,
    ensures
        parse_int(int_text(v), lo, hi) == Some(v),
{
    let s = int_text(v);
    if v < 0 {
        let d = nat_digits((-v) as nat);
        lemma_nat_digits((-v) as nat);
        assert(s[0] == '-');
        assert(s.drop_first() =~= d);
    } else {
        lemma_nat_digits(v as nat);
    }
}

/// A rendered integer is not empty and holds no character but a leading
/// minus sign and numerals.
pub proof fn lemma_int_text_chars(v: int)
    ensures
        int_text(v).len() > 0,
        forall|i: int|
            0 <= i < int_text(v).len() ==> is_digit(#[trigger] int_text(v)[i]) || int_text(v)[i]
                == '-',
{
    if v < 0 {
        lemma_nat_digits((-v) as nat);
        let d = nat_digits((-v) as nat);
        let s = int_text(v);
        assert forall|i: int| 0 <= i < s.len() implies is_digit(#[trigger] s[i]) || s[i]
            == '-' by {
            if i > 0 {
                assert(s[i] == d[i - 1]);
            }
        }
    } else {
        lemma_nat_digits(v as nat);
    }
}

/// The one-character text of a numeral.
pub fn digit_str(d: u8) -> (r: &'static str)
    requires
        d <= 9,
    ensures
        r@ == seq![digit_char(d as int)],
{
    proof {
        reveal_strlit("0");
        reveal_strlit("1");
        reveal_strlit("2");
        reveal_strlit("3");
        reveal_strlit("4");
        reveal_strlit("5");
        reveal_strlit("6");
        reveal_strlit("7");
        reveal_strlit("8");
        reveal_strlit("9");
    }
    let r: &'static str = if d == 0 {
        "0"
    } else if d == 1 {
        "1"
    } else if d == 2 {
        "2"
    } else if d == 3 {
        "3"
    } else if d == 4 {
        "4"
    } else if d == 5 {
        "5"
    } else if d == 6 {
        "6"
    } else if d == 7 {
        "7"
    } else if d == 8 {
        "8"
    } else {
        "9"
    };
    assert(r@ =~= seq![digit_char(d as int)]);
    r
}

/// The number of a numeral, or `None` for any other character.
pub fn digit_of(c: char) -> (r: Option<u8>)
    ensures
        r is Some <==> is_digit(c),
        r is Some ==> r->0 as int == digit_value(c),
{
    if c == '0' {
        Some(0)
    } else if c == '1' {
        Some(1)
    } else if c == '2' {
        Some(2)
    } else if c == '3' {
        Some(3)
    } else if c == '4' {
        Some(4)
    } else if c == '5' {
        Some(5)
    } else if c == '6' {
        Some(6)
    } else if c == '7' {
        Some(7)
    } else if c == '8' {
        Some(8)
    } else if c == '9' {
        Some(9)
    } else {
        proof {
            lemma_digit_value_bounds(c);
        }
        None
    }
}

/// Appends the numeral of `n` to `out`.
pub fn push_nat(out: &mut String, n: u128)
    ensures
        final(out)@ == old(out)@ + nat_digits(n as nat),
    decreases n,
{
    if n >= 10 {
        push_nat(out, n / 10);
    }
    let d: u8 = (n % 10) as u8;
    out.append(digit_str(d));
    proof {
        if n >= 10 {
            assert(old(out)@ + nat_digits((n / 10) as nat) + seq![digit_char(d as int)] =~= old(
                out,
            )@ + nat_digits(n as nat));
        }
    }
}

/// Renders an integer in decimal.
pub fn render_int(v: i128) -> (out: String)
    requires
        v > i128::MIN,
    ensures
        out@ == int_text(v as int),
{
    let mut out: String = String::new();
    if v < 0 {
        proof {
            reveal_strlit("-");
        }
        out.append("-");
        assert(out@ =~= seq!['-']);
        push_nat(&mut out, (-v) as u128);
    } else {
        push_nat(&mut out, v as u128);
        assert(Seq::<char>::empty() + nat_digits(v as nat) =~= nat_digits(v as nat));
    }
    out
}

/// The largest bound that `parse_integer` takes, on either side of zero.
pub const PARSE_LIMIT: i128 = 0x1_0000_0000_0000_0000;

/// Parses a decimal integer that must lie in `lo..=hi`.
pub fn parse_integer(s: &str, lo: i128, hi: i128) -> (r: Option<i128>)
    requires
        -PARSE_LIMIT <= lo <= 0,
        0 <= hi <= PARSE_LIMIT,
    ensures
        r == match parse_int(s@, lo as int, hi as int) {
            Some(v) => Some(v as i128),
            None => None,
        },
{
    let chars: Vec<char> = chars_of(s);
    let n: usize = chars.len();
    let mut negative: bool = false;
    let mut start: usize = 0;
    if n > 0 {
        if chars[0] == '-' && lo < 0 {
            negative = true;
            start = 1;
        } else if chars[0] == '+' {
            start = 1;
        }
    }
    let ghost body: Seq<char> = s@.subrange(start as int, n as int);
    proof {
        if start == 1 {
            assert(body =~= s@.drop_first());
        } else {
            assert(body =~= s@);
        }
    }
    if start == n {
        return None;
    }
    let limit: i128 = if negative {
        -lo
    } else {
        hi
    };
    let mut acc: i128 = 0;
    let mut i: usize = start;
    assert(body.subrange(0, 0) =~= Seq::<char>::empty());
    while i < n
        invariant
            start <= i <= n,
            n == s@.len(),
            chars@ == s@,
            body == s@.subrange(start as int, n as int),
            0 <= acc <= limit <= PARSE_LIMIT,
            start <= 1,
            negative == (s@.len() > 0 && s@[0] == '-' && lo < 0),
            (start == 1) == (s@.len() > 0 && (s@[0] == '+' || negative)),
            limit as int == (if negative {
                -(lo as int)
            } else {
                hi as int
            }),
            acc == digits_value(body.subrange(0, i - start)),
            all_digits(body.subrange(0, i - start)),
        decreases n - i,
    {
        let c: char = chars[i];
        let ghost prefix = body.subrange(0, i - start);
        let ghost next = body.subrange(0, i + 1 - start);
        proof {
            assert(next.drop_last() =~= prefix);
            assert(next.last() == c);
            assert(body[i - start] == c);
            if start == 1 {
                assert(body =~= s@.drop_first());
            } else {
                assert(body =~= s@);
            }
        }
        match digit_of(c) {
            None => {
                return None;
            },
            Some(d) => {
                let grown: i128 = acc * 10 + d as i128;
                if grown > limit {
                    proof {
                        if all_digits(body) {
                            lemma_digits_value_prefix(body, i + 1 - start);
                        }
                    }
                    return None;
                }
                acc = grown;
                proof {
                    assert forall|j: int| 0 <= j < next.len() implies is_digit(
                        #[trigger] next[j],
                    ) by {
                        if j < prefix.len() {
                            assert(next[j] == prefix[j]);
                        }
                    }
                }
            },
        }
        i = i + 1;
    }
    proof {
        assert(body.subrange(0, n - start) =~= body);
        if start == 1 {
            assert(body =~= s@.drop_first());
        } else {
            assert(body =~= s@);
        }
    }
    if negative {
        Some(-acc)
    } else {
        Some(acc)
    }
}

} // verus!
