//! Fixed-point numbers with six decimal places, and their text form.
//!
//! Telemetry that is not a whole number (coordinates, ranges, speeds) is
//! carried as a count of millionths. The text form is the usual decimal
//! notation without trailing zeros: `60`, `-0.5`, `37.776549`.

use crate::number::{
    all_digits, digit_char, digit_of, digit_str, digits_value, is_digit, lemma_digit_roundtrip,
    lemma_digits_value_nonneg, lemma_digits_value_prefix, lemma_nat_digits, nat_digits, push_nat,
};
use crate::text::{chars_of, first_index, lemma_first_index_bounds, lemma_first_index_is};
use vstd::prelude::*;
use vstd::string::*;

verus! {

/// Millionths in one unit.
pub const MICROS_PER_UNIT: i64 = 1_000_000;

/// A number with six decimal places: `micros` millionths.
#[derive(Debug, Clone, Copy, PartialEq, Eq, Structural)]
pub struct Decimal {
    pub micros: i64,
}

/// `f` written with exactly `width` numerals, zero-padded on the left.
pub open spec fn padded(f: nat, width: nat) -> Seq<char>
    decreases width,
{
    if width == 0 {
        Seq::empty()
    } else {
        padded(f / 10, (width - 1) as nat).push(digit_char((f % 10) as int))
    }
}

/// `s` without its trailing zeros.
pub open spec fn trim_zeros(s: Seq<char>) -> Seq<char>
    decreases s.len(),
{
    if s.len() > 0 && s.last() == '0' {
        trim_zeros(s.drop_last())
    } else {
        s
    }
}

/// `s` cut or zero-filled on the right to exactly `width` characters.
pub open spec fn fit(s: Seq<char>, width: nat) -> Seq<char> {
    Seq::new(
        width,
        |i: int|
            if i < s.len() {
                s[i]
            } else {
                '0'
            },
    )
}

/// The text of `m` millionths.
pub open spec fn decimal_text(m: int) -> Seq<char> {
    let a = if m < 0 {
        -m
    } else {
        m
    };
    let sign = if m < 0 {
        seq!['-']
    } else {
        Seq::<char>::empty()
    };
    let whole = nat_digits((a / 1_000_000) as nat);
    let frac = (a % 1_000_000) as nat;
    if frac == 0 {
        sign + whole
    } else {
        sign + whole + seq!['.'] + trim_zeros(padded(frac, 6))
    }
}

/// The millionths that a text denotes, if any. A text is an optional sign,
/// at least one numeral, and optionally a point followed by any number of
/// numerals, of which those beyond the sixth are dropped. The result must
/// fit in 64 bits.
pub open spec fn parse_decimal(s: Seq<char>) -> Option<int> {
    let negative = s.len() > 0 && s[0] == '-';
    let signed = s.len() > 0 && (s[0] == '+' || s[0] == '-');
    let body = if signed {
        s.drop_first()
    } else {
        s
    };
    let dot = first_index(body, '.');
    let whole = body.subrange(0, dot);
    let frac = if dot < body.len() {
        body.subrange(dot + 1, body.len() as int)
    } else {
        Seq::<char>::empty()
    };
    let magnitude = digits_value(whole) * 1_000_000 + digits_value(fit(frac, 6));
    let value = if negative {
        -magnitude
    } else {
        magnitude
    };
    if whole.len() > 0 && all_digits(whole) && all_digits(frac) && i64::MIN <= value <= i64::MAX {
        Some(value)
    } else {
        None
    }
}

/// Ten to the power of `n`.
pub open spec fn pow10(n: nat) -> nat
    decreases n,
{
    if n == 0 {
        1
    } else {
        10 * pow10((n - 1) as nat)
    }
}

/// A number that fits in `width` numerals is written with exactly that
/// many, and reads back as itself.
pub proof fn lemma_padded(f: nat, width: nat)
    requires
        f < pow10(width),
    ensures
        padded(f, width).len() == width,
        all_digits(padded(f, width)),
        digits_value(padded(f, width)) == f,
    decreases width,
{
    if width > 0 {
        let p = padded(f / 10, (width - 1) as nat);
        let s = padded(f, width);
        lemma_padded(f / 10, (width - 1) as nat);
        lemma_digit_roundtrip((f % 10) as int);
        assert(s.drop_last() =~= p);
        assert forall|i: int| 0 <= i < s.len() implies is_digit(#[trigger] s[i]) by {
            if i < p.len() {
                assert(s[i] == p[i]);
            }
        }
    }
}

/// Trimming keeps a prefix, and filling the prefix with zeros restores a
/// text of the same length.
pub proof fn lemma_trim_fit(s: Seq<char>)
    ensures
        trim_zeros(s).len() <= s.len(),
        fit(trim_zeros(s), s.len()) == s,
        trim_zeros(s).len() > 0 ==> trim_zeros(s).last() != '0',
        all_digits(s) ==> all_digits(trim_zeros(s)),
    decreases s.len(),
{
    if s.len() > 0 && s.last() == '0' {
        let t = s.drop_last();
        lemma_trim_fit(t);
        assert(fit(trim_zeros(t), t.len()) == t);
        assert forall|i: int| 0 <= i < s.len() implies fit(trim_zeros(s), s.len())[i] == s[i] by {
            if i < t.len() {
                assert(fit(trim_zeros(t), t.len())[i] == t[i]);
            }
        }
        assert(fit(trim_zeros(s), s.len()) =~= s);
    } else {
        assert(fit(s, s.len()) =~= s);
    }
}

/// A rendered number parses back to itself.
pub proof fn lemma_parse_decimal_text(m: int)
    requires
        i64::MIN <= m <= i64::MAX,
    ensures
        parse_decimal(decimal_text(m)) == Some(m),
{
    reveal_with_fuel(pow10, 7);
    let a = if m < 0 {
        -m
    } else {
        m
    };
    let whole = nat_digits((a / 1_000_000) as nat);
    let frac = (a % 1_000_000) as nat;
    lemma_nat_digits((a / 1_000_000) as nat);
    let tail = if frac == 0 {
        Seq::<char>::empty()
    } else {
        seq!['.'] + trim_zeros(padded(frac, 6))
    };
    let body = whole + tail;
    let s = decimal_text(m);
    if m < 0 {
        assert(s =~= seq!['-'] + body);
        assert(s.drop_first() =~= body);
    } else {
        assert(s =~= body);
    }
    let k = whole.len() as int;
    assert forall|j: int| 0 <= j < k implies body[j] != '.' by {
        assert(body[j] == whole[j]);
        assert(is_digit(whole[j]));
    }
    lemma_first_index_is(body, '.', k);
    assert(body.subrange(0, k) =~= whole);
    if frac == 0 {
        assert(body =~= whole);
        assert(fit(Seq::<char>::empty(), 6) =~= padded(0, 6)) by {
            reveal_with_fuel(padded, 7);
        }
        lemma_padded(0, 6);
    } else {
        let p = padded(frac, 6);
        lemma_padded(frac, 6);
        lemma_trim_fit(p);
        let t = trim_zeros(p);
        assert(body.subrange(k + 1, body.len() as int) =~= t);
    }
}

/// A rendered number is not empty and holds only numerals, a leading minus
/// sign and a point.
pub proof fn lemma_decimal_text_chars(m: int)
    ensures
        decimal_text(m).len() > 0,
        forall|i: int|
            0 <= i < decimal_text(m).len() ==> {
                let c = #[trigger] decimal_text(m)[i];
                is_digit(c) || c == '-' || c == '.'
            },
{
    reveal_with_fuel(pow10, 7);
    let a = if m < 0 {
        -m
    } else {
        m
    };
    let whole = nat_digits((a / 1_000_000) as nat);
    let frac = (a % 1_000_000) as nat;
    lemma_nat_digits((a / 1_000_000) as nat);
    let sign = if m < 0 {
        seq!['-']
    } else {
        Seq::<char>::empty()
    };
    let s = decimal_text(m);
    if frac == 0 {
        assert forall|i: int| 0 <= i < s.len() implies {
            let c = #[trigger] s[i];
            is_digit(c) || c == '-' || c == '.'
        } by {
            if i >= sign.len() {
                assert(s[i] == whole[i - sign.len()]);
            }
        }
    } else {
        let p = padded(frac, 6);
        lemma_padded(frac, 6);
        lemma_trim_fit(p);
        let t = trim_zeros(p);
        assert forall|i: int| 0 <= i < s.len() implies {
            let c = #[trigger] s[i];
            is_digit(c) || c == '-' || c == '.'
        } by {
            if i >= sign.len() + whole.len() + 1 {
                assert(s[i] == t[i - sign.len() - whole.len() - 1]);
            } else if i >= sign.len() + whole.len() {
            } else if i >= sign.len() {
                assert(s[i] == whole[i - sign.len()]);
            }
        }
    }
}

/// Appends `f` as `width` zero-padded numerals.
fn push_padded(out: &mut String, f: u32, width: u8)
    ensures
        final(out)@ == old(out)@ + padded(f as nat, width as nat),
    decreases width,
{
    if width > 0 {
        push_padded(out, f / 10, width - 1);
        let d: u8 = (f % 10) as u8;
        
        out.append(digit_str(d));
        assert(old(out)@ + padded((f / 10) as nat, (width - 1) as nat) + seq![
            digit_char(d as int),
        ] =~= old(out)@ + padded(f as nat, width as nat));
    } else {
        assert(old(out)@ + padded(f as nat, 0) =~= old(out)@);
    }
}

impl Decimal {
    /// The number with the given count of millionths.
    pub fn from_micros(micros: i64) -> (r: Self)
        ensures
            r.micros == micros,
    {
        Decimal { micros }
    }

    /// The whole number `units`.
    pub fn from_units(units: i32) -> (r: Self)
        ensures
            r.micros == units * 1_000_000,
    {
        Decimal { micros: units as i64 * MICROS_PER_UNIT }
    }

    /// The text form.
    pub fn to_string(&self) -> (out: String)
        ensures
            out@ == decimal_text(self.micros as int),
    {
        let m: i128 = self.micros as i128;
        let a: i128 = if m < 0 {
            -m
        } else {
            m
        };
        let mut out: String = String::new();
        if m < 0 {
            proof {
                reveal_strlit("-");
            }
            out.append("-");
        }
        let ghost sign = out@;
        assert(sign =~= if m < 0 {
            seq!['-']
        } else {
            Seq::<char>::empty()
        });
        push_nat(&mut out, (a / 1_000_000) as u128);
        let mut frac: u32 = (a % 1_000_000) as u32;
        if frac != 0 {
            proof {
                reveal_strlit(".");
            }
            out.append(".");
            let ghost head = out@;
            let mut width: u8 = 6;
            let ghost full = padded(frac as nat, 6);
            while frac % 10 == 0
                invariant
                    frac != 0,
                    width <= 6,
                    trim_zeros(padded(frac as nat, width as nat)) == trim_zeros(full),
                decreases frac,
            {
                proof {
                    if width > 0 {
                        let p = padded(frac as nat, width as nat);
                        assert(p.last() == '0');
                        assert(p.drop_last() =~= padded((frac / 10) as nat, (width - 1) as nat));
                    }
                }
                frac = frac / 10;
                if width > 0 {
                    width = width - 1;
                }
            }
            proof {
                let p = padded(frac as nat, width as nat);
                if width > 0 {
                    lemma_digit_roundtrip((frac % 10) as int);
                    assert(p.last() == digit_char((frac % 10) as int));
                    assert(p.last() != '0');
                }
                assert(trim_zeros(p) == p);
            }
            push_padded(&mut out, frac, width);
            assert(out@ =~= sign + nat_digits((a / 1_000_000) as nat) + seq!['.'] + trim_zeros(
                full,
            ));
        }
        out
    }

    /// Reads the text form.
    pub fn from_str(s: &str) -> (r: Option<Self>)
        ensures
            match parse_decimal(s@) {
                Some(m) => r == Some(Decimal { micros: m as i64 }),
                None => r is None,
            },
    {
        let chars: Vec<char> = chars_of(s);
        let n: usize = chars.len();
        let mut negative: bool = false;
        let mut start: usize = 0;
        if n > 0 {
            if chars[0] == '-' {
                negative = true;
                start = 1;
            } else if chars[0] == '+' {
                start = 1;
            }
        }
        let ghost body: Seq<char> = s@.subrange(start as int, n as int);
        proof {
            if start == 1 {
                assert(body =~= s@.drop_first());
            } else {
                assert(body =~= s@);
            }
        }
        // The whole part: numerals up to the point or the end.
        let mut whole: i128 = 0;
        let mut i: usize = start;
        let mut at_dot: bool = false;
        assert(body.subrange(0, 0) =~= Seq::<char>::empty());
        while i < n && !at_dot
            invariant
                start <= i <= n,
                start <= 1,
                n == s@.len(),
                chars@ == s@,
                body == s@.subrange(start as int, n as int),
                0 <= whole <= WHOLE_LIMIT,
                whole == digits_value(body.subrange(0, i - start)),
                all_digits(body.subrange(0, i - start)),
                at_dot ==> i < n && s@[i as int] == '.',
                negative == (s@.len() > 0 && s@[0] == '-'),
                (start == 1) == (s@.len() > 0 && (s@[0] == '+' || s@[0] == '-')),
            decreases n - i + (if at_dot { 0int } else { 1int }),
        {
            let c: char = chars[i];
            let ghost prefix = body.subrange(0, i - start);
            let ghost next = body.subrange(0, i + 1 - start);
            proof {
                assert(next.drop_last() =~= prefix);
                assert(next.last() == c);
                assert(body[i - start] == c);
                if start == 1 {
                    assert(body =~= s@.drop_first());
                } else {
                    assert(body =~= s@);
                }
                assert forall|j: int| 0 <= j < i - start implies body[j] != '.' by {
                    assert(body[j] == prefix[j]);
                    assert(is_digit(prefix[j]));
                }
            }
            if c == '.' {
                at_dot = true;
            } else {
                match digit_of(c) {
                    None => {
                        proof {
                            lemma_first_index_bounds(body, '.');
                            let dot = first_index(body, '.');
                            if dot < i - start {
                                assert(body[dot] == '.');
                            }
                            // The offending character lies in the whole part or in the fraction.
                            if i - start < dot {
                                assert(body.subrange(0, dot)[i - start] == c);
                            } else {
                                assert(dot < i - start);
                            }
                        }
                        return None;
                    },
                    Some(d) => {
                        let grown: i128 = whole * 10 + d as i128;
                        if grown > WHOLE_LIMIT {
                            proof {
                                lemma_first_index_bounds(body, '.');
                                let dot = first_index(body, '.');
                                if dot <= i - start {
                                    if dot < i - start {
                                        assert(body[dot] == prefix[dot]);
                                    }
                                    assert(false);
                                }
                                let w = body.subrange(0, dot);
                                assert(w.subrange(0, i + 1 - start) =~= next);
                                lemma_digits_value_prefix(w, i + 1 - start);
                                lemma_digits_value_nonneg(fit(
                                    if dot < body.len() {
                                        body.subrange(dot + 1, body.len() as int)
                                    } else {
                                        Seq::<char>::empty()
                                    },
                                    6,
                                ));
                            }
                            return None;
                        }
                        whole = grown;
                        proof {
                            assert forall|j: int| 0 <= j < next.len() implies is_digit(
                                #[trigger] next[j],
                            ) by {
                                if j < prefix.len() {
                                    assert(next[j] == prefix[j]);
                                }
                            }
                        }
                        i = i + 1;
                    },
                }
            }
        }
        let ghost dot: int = i - start;
        proof {
            assert forall|j: int| 0 <= j < dot implies body[j] != '.' by {
                assert(body[j] == body.subrange(0, dot)[j]);
                assert(is_digit(body.subrange(0, dot)[j]));
            }
            if i < n {
                assert(body[dot] == s@[i as int]);
            }
            lemma_first_index_is(body, '.', dot);
        }
        if i == start {
            return None;
        }
        // The fraction: numerals after the point, the first six of which count.
        let ghost frac: Seq<char> = if dot < body.len() {
            body.subrange(dot + 1, body.len() as int)
        } else {
            Seq::<char>::empty()
        };
        let mut part: i128 = 0;
        let mut taken: usize = 0;
        if i < n {
            let first: usize = i + 1;
            let mut j: usize = first;
            assert(fit(frac, 0) =~= Seq::<char>::empty());
            while j < n
                invariant
                    first <= j <= n,
                    first == start + dot + 1,
                    0 <= dot,
                    start <= 1,
                    start + dot < n,
                    first_index(body, '.') == dot,
                    (start == 1) == (s@.len() > 0 && (s@[0] == '+' || s@[0] == '-')),
                    n == s@.len(),
                    chars@ == s@,
                    body == s@.subrange(start as int, n as int),
                    frac == body.subrange(dot + 1, body.len() as int),
                    taken <= 6,
                    taken == (if j - first < 6 {
                        j - first
                    } else {
                        6
                    }),
                    0 <= part < pow10(taken as nat),
                    part == digits_value(fit(frac, taken as nat)),
                    all_digits(frac.subrange(0, j - first)),
                decreases n - j,
            {
                let c: char = chars[j];
                proof {
                    assert(frac[j - first] == c);
                    if start == 1 {
                        assert(body =~= s@.drop_first());
                    } else {
                        assert(body =~= s@);
                    }
                }
                match digit_of(c) {
                    None => {
                        return None;
                    },
                    Some(d) => {
                        if taken < 6 {
                            proof {
                                let a = fit(frac, taken as nat);
                                let b = fit(frac, (taken + 1) as nat);
                                assert(b.drop_last() =~= a);
                                assert(b.last() == c);
                                reveal_with_fuel(pow10, 7);
                            }
                            part = part * 10 + d as i128;
                            taken = taken + 1;
                        }
                        proof {
                            let a = frac.subrange(0, j - first);
                            let b = frac.subrange(0, j + 1 - first);
                            assert forall|k: int| 0 <= k < b.len() implies is_digit(
                                #[trigger] b[k],
                            ) by {
                                if k < a.len() {
                                    assert(b[k] == a[k]);
                                }
                            }
                        }
                    },
                }
                j = j + 1;
            }
            assert(frac.subrange(0, n - first) =~= frac);
        }
        // Fill the digits that were not written with zeros.
        while taken < 6
            invariant
                taken <= 6,
                taken >= frac.len() || taken == 6,
                0 <= part < pow10(taken as nat),
                part == digits_value(fit(frac, taken as nat)),
            decreases 6 - taken,
        {
            proof {
                let a = fit(frac, taken as nat);
                let b = fit(frac, (taken + 1) as nat);
                assert(b.drop_last() =~= a);
                assert(b.last() == '0');
                reveal_with_fuel(pow10, 7);
            }
            part = part * 10;
            taken = taken + 1;
        }
        proof {
            reveal_with_fuel(pow10, 7);
            assert(body.subrange(0, dot) =~= body.subrange(0, i - start));
        }
        let magnitude: i128 = whole * 1_000_000 + part;
        let value: i128 = if negative {
            -magnitude
        } else {
            magnitude
        };
        if value < i64::MIN as i128 || value > i64::MAX as i128 {
            return None;
        }
        Some(Decimal { micros: value as i64 })
    }
}

/// The largest whole part that may still fit in 64 bits of millionths.
pub const WHOLE_LIMIT: i128 = 9_223_372_036_854;

} // verus!
