//! Text primitives shared by the wire formats: character sequences, splitting
//! and joining on a separator, and decimal integers.
//!
//! Every executable function here works on `&str` / `String` and is specified
//! over the `Seq<char>` view of its arguments.

use vstd::prelude::*;
use vstd::string::*;

verus! {

/// The views of a sequence of strings, one character sequence per string.
pub open spec fn views(v: Seq<String>) -> Seq<Seq<char>> {
    Seq::new(v.len(), |i: int| v[i]@)
}

/// Position of the first `sep` in `s`, or `s.len()` when there is none.
pub open spec fn first_index(s: Seq<char>, sep: char) -> int
    decreases s.len(),
{
    if s.len() == 0 {
        0
    } else if s[0] == sep {
        0
    } else {
        1 + first_index(s.drop_first(), sep)
    }
}

/// The pieces of `s` between occurrences of `sep`. An empty input has one
/// empty piece, and a trailing separator yields a trailing empty piece.
pub open spec fn split(s: Seq<char>, sep: char) -> Seq<Seq<char>>
    decreases s.len(),
{
    let i = first_index(s, sep);
    if 0 <= i < s.len() {
        seq![s.subrange(0, i)] + split(s.subrange(i + 1, s.len() as int), sep)
    } else {
        seq![s]
    }
}

/// The pieces glued together with `sep` between neighbours.
pub open spec fn join(parts: Seq<Seq<char>>, sep: char) -> Seq<char>
    decreases parts.len(),
{
    if parts.len() == 0 {
        Seq::empty()
    } else if parts.len() == 1 {
        parts[0]
    } else {
        parts[0] + seq![sep] + join(parts.drop_first(), sep)
    }
}

/// No character of `s` is `sep`.
pub open spec fn free_of(s: Seq<char>, sep: char) -> bool {
    forall|i: int| 0 <= i < s.len() ==> s[i] != sep
}

/// `first_index` lies within the text or at its end, holds `sep` if it lies
/// within, and nothing before it holds `sep`.
pub proof fn lemma_first_index_bounds(s: Seq<char>, sep: char)
    ensures
        0 <= first_index(s, sep) <= s.len(),
        first_index(s, sep) < s.len() ==> s[first_index(s, sep)] == sep,
        forall|j: int| 0 <= j < first_index(s, sep) ==> s[j] != sep,
    decreases s.len(),
{
    if s.len() > 0 && s[0] != sep {
        let t = s.drop_first();
        lemma_first_index_bounds(t, sep);
        assert forall|j: int| 0 <= j < first_index(s, sep) implies s[j] != sep by {
            if j > 0 {
                assert(s[j] == t[j - 1]);
            }
        }
    }
}

/// `first_index` is the only position that holds `sep` with none before it.
pub proof fn lemma_first_index_is(s: Seq<char>, sep: char, i: int)
    requires
        0 <= i <= s.len(),
        forall|j: int| 0 <= j < i ==> s[j] != sep,
        i < s.len() ==> s[i] == sep,
    ensures
        first_index(s, sep) == i,
{
    lemma_first_index_bounds(s, sep);
    let k = first_index(s, sep);
    if k < i {
        assert(s[k] != sep);
    } else if i < k {
        assert(s[i] != sep);
    }
}

/// Splitting what was joined gives the pieces back, as long as there is at
/// least one piece and no piece holds the separator.
pub proof fn lemma_split_join(parts: Seq<Seq<char>>, sep: char)
    requires
        parts.len() > 0,
        forall|k: int| 0 <= k < parts.len() ==> free_of(#[trigger] parts[k], sep),
    ensures
        split(join(parts, sep), sep) == parts,
    decreases parts.len(),
{
    let s = join(parts, sep);
    if parts.len() == 1 {
        assert(free_of(parts[0], sep));
        lemma_first_index_is(s, sep, s.len() as int);
        assert(split(s, sep) == seq![s]);
        assert(seq![s] =~= parts);
    } else {
        let rest = parts.drop_first();
        let head = parts[0];
        assert(free_of(head, sep));
        assert forall|k: int| 0 <= k < rest.len() implies free_of(#[trigger] rest[k], sep) by {
            assert(rest[k] == parts[k + 1]);
        }
        lemma_split_join(rest, sep);
        let tail = join(rest, sep);
        assert(s == head + seq![sep] + tail);
        let i = head.len() as int;
        assert(s[i] == sep);
        assert forall|j: int| 0 <= j < i implies s[j] != sep by {
            assert(s[j] == head[j]);
        }
        lemma_first_index_is(s, sep, i);
        assert(s.subrange(0, i) =~= head);
        assert(s.subrange(i + 1, s.len() as int) =~= tail);
        assert(split(s, sep) == seq![head] + split(tail, sep));
        assert(seq![head] + rest =~= parts);
    }
}

/// Every piece of a split is free of the separator, and there is at least one.
pub proof fn lemma_split_pieces(s: Seq<char>, sep: char)
    ensures
        split(s, sep).len() > 0,
        forall|k: int| 0 <= k < split(s, sep).len() ==> free_of(#[trigger] split(s, sep)[k], sep),
    decreases s.len(),
{
    lemma_first_index_bounds(s, sep);
    let i = first_index(s, sep);
    if 0 <= i < s.len() {
        let rest = s.subrange(i + 1, s.len() as int);
        lemma_split_pieces(rest, sep);
        let head = s.subrange(0, i);
        assert(free_of(head, sep));
        assert forall|k: int| 0 <= k < split(s, sep).len() implies free_of(
            #[trigger] split(s, sep)[k],
            sep,
        ) by {
            if k > 0 {
                assert(split(s, sep)[k] == split(rest, sep)[k - 1]);
            }
        }
    } else {
        assert(free_of(s, sep));
    }
}

/// What follows `prefix` in `s`, if `s` starts with it.
pub open spec fn strip(s: Seq<char>, prefix: Seq<char>) -> Option<Seq<char>> {
    if prefix.len() <= s.len() && s.subrange(0, prefix.len() as int) == prefix {
        Some(s.subrange(prefix.len() as int, s.len() as int))
    } else {
        None
    }
}

/// What stands before and after the first `sep` in `s`, if there is one.
pub open spec fn cut(s: Seq<char>, sep: char) -> Option<(Seq<char>, Seq<char>)> {
    let i = first_index(s, sep);
    if 0 <= i < s.len() {
        Some((s.subrange(0, i), s.subrange(i + 1, s.len() as int)))
    } else {
        None
    }
}

/// Stripping a prefix from what was put behind it gives that back.
pub proof fn lemma_strip_concat(prefix: Seq<char>, rest: Seq<char>)
    ensures
        strip(prefix + rest, prefix) == Some(rest),
{
    let s = prefix + rest;
    assert(s.subrange(0, prefix.len() as int) =~= prefix);
    assert(s.subrange(prefix.len() as int, s.len() as int) =~= rest);
}

/// Cutting at a separator that the part before it does not hold gives the
/// two parts back.
pub proof fn lemma_cut_concat(before: Seq<char>, sep: char, after: Seq<char>)
    requires
        free_of(before, sep),
    ensures
        cut(before + seq![sep] + after, sep) == Some((before, after)),
{
    let s = before + seq![sep] + after;
    let i = before.len() as int;
    assert(s[i] == sep);
    assert forall|j: int| 0 <= j < i implies s[j] != sep by {
        assert(s[j] == before[j]);
    }
    lemma_first_index_is(s, sep, i);
    assert(s.subrange(0, i) =~= before);
    assert(s.subrange(i + 1, s.len() as int) =~= after);
}

/// What follows `prefix` in `s`, if `s` starts with it.
pub fn strip_prefix<'a>(s: &'a str, prefix: &str) -> (r: Option<&'a str>)
    ensures
        match strip(s@, prefix@) {
            Some(rest) => r is Some && r->0@ == rest,
            None => r is None,
        },
{
    let n: usize = s.unicode_len();
    let k: usize = prefix.unicode_len();
    if k > n {
        return None;
    }
    let head: &str = s.substring_char(0, k);
    if str_eq(head, prefix) {
        Some(s.substring_char(k, n))
    } else {
        None
    }
}

/// What stands before and after the first `sep` in `s`, if there is one.
pub fn split_once<'a>(s: &'a str, sep: char) -> (r: Option<(&'a str, &'a str)>)
    ensures
        match cut(s@, sep) {
            Some((before, after)) => r matches Some(pair) && pair.0@ == before && pair.1@
                == after,
            None => r is None,
        },
{
    let chars: Vec<char> = chars_of(s);
    let n: usize = chars.len();
    let mut i: usize = 0;
    while i < n
        invariant
            i <= n,
            n == s@.len(),
            chars@ == s@,
            forall|j: int| 0 <= j < i ==> s@[j] != sep,
        decreases n - i,
    {
        if chars[i] == sep {
            proof {
                lemma_first_index_is(s@, sep, i as int);
            }
            return Some((s.substring_char(0, i), s.substring_char(i + 1, n)));
        }
        i = i + 1;
    }
    proof {
        lemma_first_index_is(s@, sep, n as int);
    }
    None
}

/// Whether two texts hold the same characters.
pub fn str_eq(a: &str, b: &str) -> (r: bool)
    ensures
        r == (a@ == b@),
{
    let x: String = a.to_owned();
    let y: String = b.to_owned();
    x == y
}

/// The characters of an optional text.
pub open spec fn opt_text(o: Option<String>) -> Option<Seq<char>> {
    match o {
        Some(s) => Some(s@),
        None => None,
    }
}

/// A copy of an optional text.
pub fn clone_text(o: &Option<String>) -> (r: Option<String>)
    ensures
        opt_text(r) == opt_text(*o),
{
    match o {
        Some(s) => Some(s.as_str().to_owned()),
        None => None,
    }
}

/// A copy of a list of texts.
pub fn clone_texts(v: &Vec<String>) -> (r: Vec<String>)
    ensures
        views(r@) == views(v@),
{
    let mut r: Vec<String> = Vec::new();
    let mut i: usize = 0;
    while i < v.len()
        invariant
            i <= v.len(),
            views(r@) == views(v@).subrange(0, i as int),
        decreases v.len() - i,
    {
        let s: String = v[i].as_str().to_owned();
        let ghost before = r@;
        r.push(s);
        i = i + 1;
        assert(views(r@) =~= views(before).push(s@));
        assert(views(r@) =~= views(v@).subrange(0, i as int));
    }
    assert(views(v@).subrange(0, v.len() as int) =~= views(v@));
    r
}

/// The characters of a string, in order.
pub fn chars_of(s: &str) -> (v: Vec<char>)
    ensures
        v@ == s@,
{
    let n: usize = s.unicode_len();
    let mut v: Vec<char> = Vec::new();
    let mut i: usize = 0;
    while i < n
        invariant
            n == s@.len(),
            i <= n,
            v@ == s@.subrange(0, i as int),
        decreases n - i,
    {
        let c: char = s.get_char(i);
        v.push(c);
        i = i + 1;
        assert(v@ =~= s@.subrange(0, i as int));
    }
    assert(s@.subrange(0, n as int) =~= s@);
    v
}

/// Splits `s` at every `sep`.
pub fn split_on(s: &str, sep: char) -> (parts: Vec<String>)
    ensures
        views(parts@) == split(s@, sep),
{
    let chars: Vec<char> = chars_of(s);
    let n: usize = chars.len();
    let mut parts: Vec<String> = Vec::new();
    let mut start: usize = 0;
    let mut i: usize = 0;
    assert(s@.subrange(0, n as int) =~= s@);
    assert(views(parts@) + split(s@, sep) =~= split(s@, sep));
    while i < n
        invariant
            n == s@.len(),
            chars@ == s@,
            start <= i <= n,
            forall|j: int| start <= j < i ==> s@[j] != sep,
            views(parts@) + split(s@.subrange(start as int, n as int), sep) == split(s@, sep),
        decreases n - i,
    {
        if chars[i] == sep {
            let piece: String = s.substring_char(start, i).to_owned();
            proof {
                let rest = s@.subrange(start as int, n as int);
                let k = i - start;
                assert(rest[k] == sep);
                assert forall|j: int| 0 <= j < k implies rest[j] != sep by {
                    assert(rest[j] == s@[start + j]);
                }
                lemma_first_index_is(rest, sep, k);
                assert(rest.subrange(0, k) =~= s@.subrange(start as int, i as int));
                assert(rest.subrange(k + 1, rest.len() as int) =~= s@.subrange(i + 1, n as int));
                assert(views(parts@.push(piece)) =~= views(parts@) + seq![piece@]);
                assert(views(parts@) + (seq![piece@] + split(s@.subrange(i + 1, n as int), sep))
                    =~= views(parts@) + seq![piece@] + split(s@.subrange(i + 1, n as int), sep));
            }
            parts.push(piece);
            start = i + 1;
        }
        i = i + 1;
    }
    let piece: String = s.substring_char(start, n).to_owned();
    proof {
        let rest = s@.subrange(start as int, n as int);
        assert forall|j: int| 0 <= j < rest.len() implies rest[j] != sep by {
            assert(rest[j] == s@[start + j]);
        }
        lemma_first_index_is(rest, sep, rest.len() as int);
        assert(split(rest, sep) == seq![rest]);
        assert(views(parts@.push(piece)) =~= views(parts@) + seq![piece@]);
    }
    parts.push(piece);
    parts
}

/// Glues `parts` together with the one-character string `sep` between
/// neighbours.
pub fn join_with(parts: &Vec<String>, sep: &str) -> (out: String)
    requires
        sep@.len() == 1,
    ensures
        out@ == join(views(parts@), sep@[0]),
{
    let ghost c: char = sep@[0];
    assert(sep@ =~= seq![c]);
    let n: usize = parts.len();
    let mut out: String = String::new();
    if n == 0 {
        return out;
    }
    let mut k: usize = 0;
    while k < n
        invariant
            k <= n,
            n == parts@.len(),
            n > 0,
            sep@ == seq![c],
            out@ == join(views(parts@).subrange(0, k as int), c),
        decreases n - k,
    {
        proof {
            lemma_join_push(views(parts@).subrange(0, k as int), parts@[k as int]@, c);
            assert(views(parts@).subrange(0, k as int).push(parts@[k as int]@) =~= views(
                parts@,
            ).subrange(0, k + 1));
        }
        if k > 0 {
            out.append(sep);
        }
        out.append(parts[k].as_str());
        k = k + 1;
    }
    assert(views(parts@).subrange(0, n as int) =~= views(parts@));
    out
}

/// Joining one more piece appends the separator and the piece.
pub proof fn lemma_join_push(parts: Seq<Seq<char>>, last: Seq<char>, sep: char)
    ensures
        join(parts.push(last), sep) == if parts.len() == 0 {
            last
        } else {
            join(parts, sep) + seq![sep] + last
        },
    decreases parts.len(),
{
    let all = parts.push(last);
    if parts.len() == 0 {
        assert(all.len() == 1);
        assert(all[0] == last);
    } else if parts.len() == 1 {
        assert(all.drop_first() =~= seq![last]);
        assert(join(all.drop_first(), sep) == last);
        assert(join(all, sep) == all[0] + seq![sep] + last);
    } else {
        let rest = parts.drop_first();
        lemma_join_push(rest, last, sep);
        assert(all.drop_first() =~= rest.push(last));
        assert(join(all, sep) == parts[0] + seq![sep] + join(rest.push(last), sep));
        assert(join(parts, sep) == parts[0] + seq![sep] + join(rest, sep));
        assert(parts[0] + seq![sep] + (join(rest, sep) + seq![sep] + last) =~= parts[0] + seq![sep]
            + join(rest, sep) + seq![sep] + last);
    }
}

} // verus!
