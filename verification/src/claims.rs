//! What holds of written claims when they are read as the members of an
//! object: each member ends where the next begins, and all three stand under
//! the keys of claims.

use crate::number::{int_text, is_digit, lemma_int_text_chars};
use crate::text::{free_of, join};
use crate::tokens::{
    claims_from, claims_part, claims_text, is_claim, lemma_purpose_name, lemma_scope_name,
    member_end, members, purpose_name, quote, quoted_names, scope_name, Purpose, ScopeEnum,
    ScopeSet,
};
use vstd::prelude::*;

verus! {

/// Outside of a string, characters that open and close nothing are passed
/// over.
proof fn lemma_skip_plain(s: Seq<char>, i: int, j: int, depth: nat)
    requires
        0 <= i <= j <= s.len(),
        forall|k: int|
            i <= k < j ==> s[k] != '"' && s[k] != '[' && s[k] != ']' && s[k] != '{' && s[k] != '}'
                && (s[k] != ',' || depth > 0),
    ensures
        member_end(s, i, depth, false) == member_end(s, j, depth, false),
    decreases j - i,
{
    if i < j {
        lemma_skip_plain(s, i + 1, j, depth);
    }
}

/// Inside of a string without escapes, everything up to the closing quote
/// is passed over.
proof fn lemma_skip_inside(s: Seq<char>, i: int, j: int, depth: nat)
    requires
        0 <= i <= j < s.len(),
        s[j] == '"',
        forall|k: int| i <= k < j ==> s[k] != '"' && s[k] != '\\',
    ensures
        member_end(s, i, depth, true) == member_end(s, j + 1, depth, false),
    decreases j - i,
{
    if i < j {
        lemma_skip_inside(s, i + 1, j, depth);
    }
}

/// A string without escapes is passed over as a whole.
proof fn lemma_skip_string(s: Seq<char>, i: int, j: int, depth: nat)
    requires
        0 <= i < j < s.len(),
        s[i] == '"',
        s[j] == '"',
        forall|k: int| i < k < j ==> s[k] != '"' && s[k] != '\\',
    ensures
        member_end(s, i, depth, false) == member_end(s, j + 1, depth, false),
{
    lemma_skip_inside(s, i + 1, j, depth);
}

/// No name of a scope or of a purpose holds a double quote or a backslash.
proof fn lemma_names_unescaped(s: ScopeEnum, p: Purpose)
    ensures
        free_of(scope_name(s), '"'),
        free_of(scope_name(s), '\\'),
        free_of(purpose_name(p), '"'),
        free_of(purpose_name(p), '\\'),
{
    lemma_scope_name(s);
    lemma_purpose_name(p);
    reveal_strlit("openid");
    reveal_strlit("offline_access");
    reveal_strlit("user_data");
    reveal_strlit("vehicle_device_data");
    reveal_strlit("vehicle_cmds");
    reveal_strlit("vehicle_charging_cmds");
    reveal_strlit("energy_device_data");
    reveal_strlit("energy_cmds");
    reveal_strlit("Access");
    reveal_strlit("Refresh");
    assert("openid"@.len() == 6);
    assert("offline_access"@.len() == 14);
    assert("user_data"@.len() == 9);
    assert("vehicle_device_data"@.len() == 19);
    assert("vehicle_cmds"@.len() == 12);
    assert("vehicle_charging_cmds"@.len() == 21);
    assert("energy_device_data"@.len() == 18);
    assert("energy_cmds"@.len() == 11);
    assert("Access"@.len() == 6);
    assert("Refresh"@.len() == 7);
}

/// Within an array, a written list of scopes is passed over as a whole.
proof fn lemma_skip_names(s: Seq<char>, o: int, list: Seq<ScopeEnum>, depth: nat)
    requires
        depth > 0,
        0 <= o,
        o + join(quoted_names(list), ',').len() <= s.len(),
        s.subrange(o, o + join(quoted_names(list), ',').len()) == join(quoted_names(list), ','),
    ensures
        member_end(s, o, depth, false) == member_end(
            s,
            o + join(quoted_names(list), ',').len(),
            depth,
            false,
        ),
    decreases list.len(),
{
    let pieces = quoted_names(list);
    let inner = join(pieces, ',');
    if list.len() > 0 {
        let name = scope_name(list[0]);
        let piece = pieces[0];
        let n = piece.len() as int;
        assert(piece == quote(name));
        assert(n == name.len() + 2);
        lemma_names_unescaped(list[0], Purpose::Access);
        assert forall|k: int| 0 <= k < n implies s[o + k] == piece[k] by {
            assert(s.subrange(o, o + inner.len())[k] == s[o + k]);
            assert(inner[k] == piece[k]);
        }
        assert(s[o] == piece[0]);
        assert(s[o + n - 1] == piece[n - 1]);
        assert forall|k: int| o < k < o + n - 1 implies s[k] != '"' && s[k] != '\\' by {
            assert(s[o + (k - o)] == piece[k - o]);
            assert(piece[k - o] == name[k - o - 1]);
        }
        lemma_skip_string(s, o, o + n - 1, depth);
        if list.len() > 1 {
            let rest = list.drop_first();
            assert(pieces.drop_first() =~= quoted_names(rest));
            let tail = join(quoted_names(rest), ',');
            assert(inner == piece + seq![','] + tail);
            assert(s.subrange(o, o + inner.len())[n] == s[o + n]);
            assert(s[o + n] == ',');
            assert(s.subrange(o + n + 1, o + n + 1 + tail.len()) =~= tail) by {
                assert forall|k: int| 0 <= k < tail.len() implies s[o + n + 1 + k] == tail[k] by {
                    assert(s.subrange(o, o + inner.len())[n + 1 + k] == s[o + n + 1 + k]);
                }
            }
            lemma_skip_names(s, o + n + 1, rest, depth);
        }
    }
}

/// The member under `exp` ends at the comma behind its number.
proof fn lemma_end_exp(pre: Seq<char>, number: Seq<char>, rest: Seq<char>)
    requires
        forall|k: int| 0 <= k < number.len() ==> is_digit(number[k]) || number[k] == '-',
        rest.len() > 0,
        rest[0] == ',',
    ensures
        ({
            let s = pre + ("\"exp\":"@ + number) + rest;
            let i = pre.len() as int;
            let end = i + 6 + number.len();
            &&& member_end(s, i, 0, false) == end
            &&& s.subrange(i, end) == "\"exp\":"@ + number
            &&& is_claim(s.subrange(i, end))
            &&& end < s.len() && s[end] == ','
        }),
{
    reveal_strlit("\"exp\":");
    let member = "\"exp\":"@ + number;
    let s = pre + member + rest;
    let i = pre.len() as int;
    let n = number.len() as int;
    assert forall|k: int| 0 <= k < 6 + n implies s[i + k] == member[k] by {}
    assert(s[i] == member[0] && s[i + 1] == member[1] && s[i + 2] == member[2] && s[i + 3]
        == member[3] && s[i + 4] == member[4] && s[i + 5] == member[5]);
    assert(s[i + 6 + n] == rest[0]);
    lemma_skip_string(s, i, i + 4, 0);
    assert forall|k: int| i + 5 <= k < i + 6 + n implies s[k] != '"' && s[k] != '[' && s[k] != ']'
        && s[k] != '{' && s[k] != '}' && s[k] != ',' by {
        assert(s[i + (k - i)] == member[k - i]);
        if k > i + 5 {
            assert(member[k - i] == number[k - i - 6]);
        }
    }
    lemma_skip_plain(s, i + 5, i + 6 + n, 0);
    assert(s.subrange(i, i + 6 + n) =~= member);
    assert(member.subrange(0, 6) =~= "\"exp\":"@);
}

/// The member under `purpose` ends at the comma behind its name.
proof fn lemma_end_purpose(pre: Seq<char>, name: Seq<char>, rest: Seq<char>)
    requires
        free_of(name, '"'),
        free_of(name, '\\'),
        rest.len() > 0,
        rest[0] == ',',
    ensures
        ({
            let s = pre + ("\"purpose\":\""@ + name + seq!['"']) + rest;
            let i = pre.len() as int;
            let end = i + 12 + name.len();
            &&& member_end(s, i, 0, false) == end
            &&& s.subrange(i, end) == "\"purpose\":\""@ + name + seq!['"']
            &&& is_claim(s.subrange(i, end))
            &&& end < s.len() && s[end] == ','
        }),
{
    reveal_strlit("\"purpose\":\"");
    reveal_strlit("\"purpose\":");
    let member = "\"purpose\":\""@ + name + seq!['"'];
    let s = pre + member + rest;
    let i = pre.len() as int;
    let p = name.len() as int;
    assert forall|k: int| 0 <= k < 12 + p implies s[i + k] == member[k] by {}
    assert(s[i] == member[0] && s[i + 1] == member[1] && s[i + 2] == member[2] && s[i + 3]
        == member[3] && s[i + 4] == member[4] && s[i + 5] == member[5] && s[i + 6] == member[6]
        && s[i + 7] == member[7] && s[i + 8] == member[8] && s[i + 9] == member[9] && s[i + 10]
        == member[10]);
    assert(s[i + 11 + p] == member[11 + p]);
    assert(s[i + 12 + p] == rest[0]);
    lemma_skip_string(s, i, i + 8, 0);
    lemma_skip_plain(s, i + 9, i + 10, 0);
    assert forall|k: int| i + 10 < k < i + 11 + p implies s[k] != '"' && s[k] != '\\' by {
        assert(s[i + (k - i)] == member[k - i]);
        assert(member[k - i] == name[k - i - 11]);
    }
    lemma_skip_string(s, i + 10, i + 11 + p, 0);
    assert(s.subrange(i, i + 12 + p) =~= member);
    assert(member.subrange(0, 10) =~= "\"purpose\":"@);
}

/// The member under `scopes` ends at the bracket that closes the object.
proof fn lemma_end_scopes(pre: Seq<char>, list: Seq<ScopeEnum>)
    ensures
        ({
            let inner = join(quoted_names(list), ',');
            let s = pre + ("\"scopes\":["@ + inner + seq![']']) + seq!['}'];
            let i = pre.len() as int;
            let end = i + 11 + inner.len();
            &&& member_end(s, i, 0, false) == end
            &&& s.subrange(i, end) == "\"scopes\":["@ + inner + seq![']']
            &&& is_claim(s.subrange(i, end))
            &&& end + 1 == s.len() && s[end] == '}'
        }),
{
    reveal_strlit("\"scopes\":[");
    reveal_strlit("\"scopes\":");
    let inner = join(quoted_names(list), ',');
    let member = "\"scopes\":["@ + inner + seq![']'];
    let s = pre + member + seq!['}'];
    let i = pre.len() as int;
    let m = inner.len() as int;
    assert forall|k: int| 0 <= k < 11 + m implies s[i + k] == member[k] by {}
    assert(s[i] == member[0] && s[i + 1] == member[1] && s[i + 2] == member[2] && s[i + 3]
        == member[3] && s[i + 4] == member[4] && s[i + 5] == member[5] && s[i + 6] == member[6]
        && s[i + 7] == member[7] && s[i + 8] == member[8] && s[i + 9] == member[9]);
    assert(s[i + 10 + m] == member[10 + m]);
    lemma_skip_string(s, i, i + 7, 0);
    lemma_skip_plain(s, i + 8, i + 9, 0);
    assert(member_end(s, i + 9, 0, false) == member_end(s, i + 10, 1, false));
    assert(s.subrange(i + 10, i + 10 + m) =~= inner) by {
        assert forall|k: int| 0 <= k < m implies s[i + 10 + k] == inner[k] by {
            assert(s[i + (10 + k)] == member[10 + k]);
        }
    }
    lemma_skip_names(s, i + 10, list, 1);
    assert(member_end(s, i + 10 + m, 1, false) == member_end(s, i + 11 + m, 0, false));
    assert(member_end(s, i + 11 + m, 0, false) == i + 11 + m);
    assert(s.subrange(i, i + 11 + m) =~= member);
    assert(member.subrange(0, 9) =~= "\"scopes\":"@);
}

/// The three members of written claims.
spec fn written_members(purpose: Purpose, exp: u64, scopes: ScopeSet) -> (
    Seq<char>,
    Seq<char>,
    Seq<char>,
) {
    (
        "\"exp\":"@ + int_text(exp as int),
        "\"purpose\":\""@ + purpose_name(purpose) + seq!['"'],
        "\"scopes\":["@ + join(quoted_names(members(scopes, 8)), ',') + seq![']'],
    )
}

/// Written claims are an object of their three members.
proof fn lemma_written_members(purpose: Purpose, exp: u64, scopes: ScopeSet)
    ensures
        ({
            let (first, second, third) = written_members(purpose, exp, scopes);
            claims_text(purpose, exp, scopes) == seq!['{'] + first + seq![','] + second + seq![
                ',',
            ] + third + seq!['}']
        }),
{
    reveal_strlit("{\"exp\":");
    reveal_strlit("\"exp\":");
    reveal_strlit(",\"purpose\":\"");
    reveal_strlit("\"purpose\":\"");
    reveal_strlit("\",\"scopes\":[");
    reveal_strlit("\"scopes\":[");
    reveal_strlit("]}");
    let (first, second, third) = written_members(purpose, exp, scopes);
    assert("{\"exp\":"@ =~= seq!['{'] + "\"exp\":"@);
    assert(",\"purpose\":\""@ =~= seq![','] + "\"purpose\":\""@);
    assert("\",\"scopes\":["@ =~= seq!['"'] + seq![','] + "\"scopes\":["@);
    assert("]}"@ =~= seq![']'] + seq!['}']);
    assert(claims_text(purpose, exp, scopes) =~= seq!['{'] + first + seq![','] + second + seq![
        ',',
    ] + third + seq!['}']);
}

/// An object of three members that all stand under keys of claims is the
/// part of itself that stands under such keys.
proof fn lemma_three_claims(s: Seq<char>, first: Seq<char>, second: Seq<char>, third: Seq<char>)
    requires
        s == seq!['{'] + first + seq![','] + second + seq![','] + third + seq!['}'],
        is_claim(first),
        is_claim(second),
        is_claim(third),
        member_end(s, 1, 0, false) == 1 + first.len(),
        member_end(s, 2 + first.len() as int, 0, false) == 2 + first.len() + second.len(),
        member_end(s, 3 + first.len() as int + second.len() as int, 0, false) == 3 + first.len()
            + second.len() + third.len(),
    ensures
        claims_part(s) == Some(s),
{
    let a = 1int;
    let b = 2 + first.len() as int;
    let c = b + 1 + second.len() as int;
    let d = c + third.len() as int;
    assert(s.len() == d + 1);
    assert(s[a + first.len()] == ',');
    assert(s[b + second.len()] == ',');
    assert(s[d] == '}');
    assert(s.subrange(a, a + first.len()) =~= first);
    assert(s.subrange(b, b + second.len()) =~= second);
    assert(s.subrange(c, d) =~= third);
    let kept_third = seq![','] + third;
    let kept_second = seq![','] + second;
    let kept_first = seq![','] + first;
    assert(claims_from(s, c) == Some(kept_third));
    assert(claims_from(s, b) == Some(kept_second + kept_third));
    assert(claims_from(s, a) == Some(kept_first + (kept_second + kept_third)));
    let kept = kept_first + (kept_second + kept_third);
    assert(seq!['{'] + kept.drop_first() + seq!['}'] =~= s);
}

/// Written claims hold nothing but claims: the part of them that stands
/// under the keys of claims is the whole.
pub proof fn lemma_claims_part_written(purpose: Purpose, exp: u64, scopes: ScopeSet)
    ensures
        claims_part(claims_text(purpose, exp, scopes)) == Some(claims_text(purpose, exp, scopes)),
{
    let (first, second, third) = written_members(purpose, exp, scopes);
    let text = claims_text(purpose, exp, scopes);
    lemma_written_members(purpose, exp, scopes);
    lemma_int_text_chars(exp as int);
    lemma_names_unescaped(ScopeEnum::Openid, purpose);
    let comma = seq![','];
    let open = seq!['{'];
    let close = seq!['}'];

    let after_first = comma + second + comma + third + close;
    assert(text =~= open + first + after_first);
    lemma_end_exp(open, int_text(exp as int), after_first);

    let before_second = open + first + comma;
    let after_second = comma + third + close;
    assert(text =~= before_second + second + after_second);
    lemma_end_purpose(before_second, purpose_name(purpose), after_second);

    let before_third = before_second + second + comma;
    assert(text =~= before_third + third + close);
    lemma_end_scopes(before_third, members(scopes, 8));

    lemma_three_claims(text, first, second, third);
}

} // verus!
