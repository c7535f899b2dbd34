//! What holds of the line format as a whole: a sample that is written for a
//! field list and read back with the same list is the sample again, as far
//! as the list goes.

use crate::decimal::{lemma_decimal_text_chars, lemma_parse_decimal_text, Decimal};
use crate::number::{lemma_int_text_chars, lemma_parse_int_text};
use crate::streaming::{
    blank_sample, decimal_of_text, decimal_value_text, decode_line, decode_values, encode_line,
    field_name, field_of_name, field_text, int_of_text, line_pieces, with_field, StreamingDataView,
    StreamingFields,
};
use crate::text::{free_of, join, lemma_split_join};
use crate::types::{canonical_shift, lemma_shift_roundtrip, shift_text};
use vstd::prelude::*;

verus! {

/// The sample with every value outside `fields` made unknown.
pub open spec fn restrict(d: StreamingDataView, fields: Seq<StreamingFields>) -> StreamingDataView {
    StreamingDataView {
        id: d.id,
        time: d.time,
        speed: if fields.contains(StreamingFields::Speed) {
            d.speed
        } else {
            None
        },
        odometer: if fields.contains(StreamingFields::Odometer) {
            d.odometer
        } else {
            None
        },
        soc: if fields.contains(StreamingFields::Soc) {
            d.soc
        } else {
            None
        },
        elevation: if fields.contains(StreamingFields::Elevation) {
            d.elevation
        } else {
            None
        },
        est_heading: if fields.contains(StreamingFields::EstHeading) {
            d.est_heading
        } else {
            None
        },
        est_lat: if fields.contains(StreamingFields::EstLat) {
            d.est_lat
        } else {
            None
        },
        est_lng: if fields.contains(StreamingFields::EstLng) {
            d.est_lng
        } else {
            None
        },
        power: if fields.contains(StreamingFields::Power) {
            d.power
        } else {
            None
        },
        shift_state: if fields.contains(StreamingFields::ShiftState) {
            d.shift_state
        } else {
            None
        },
        range: if fields.contains(StreamingFields::Range) {
            d.range
        } else {
            None
        },
        est_range: if fields.contains(StreamingFields::EstRange) {
            d.est_range
        } else {
            None
        },
        heading: if fields.contains(StreamingFields::Heading) {
            d.heading
        } else {
            None
        },
    }
}

/// The sample `cur` with the value of field `f` taken from `d`.
pub open spec fn copy_field(
    cur: StreamingDataView,
    d: StreamingDataView,
    f: StreamingFields,
) -> StreamingDataView {
    match f {
        StreamingFields::Speed => StreamingDataView { speed: d.speed, ..cur },
        StreamingFields::Odometer => StreamingDataView { odometer: d.odometer, ..cur },
        StreamingFields::Soc => StreamingDataView { soc: d.soc, ..cur },
        StreamingFields::Elevation => StreamingDataView { elevation: d.elevation, ..cur },
        StreamingFields::EstHeading => StreamingDataView { est_heading: d.est_heading, ..cur },
        StreamingFields::EstLat => StreamingDataView { est_lat: d.est_lat, ..cur },
        StreamingFields::EstLng => StreamingDataView { est_lng: d.est_lng, ..cur },
        StreamingFields::Power => StreamingDataView { power: d.power, ..cur },
        StreamingFields::ShiftState => StreamingDataView { shift_state: d.shift_state, ..cur },
        StreamingFields::Range => StreamingDataView { range: d.range, ..cur },
        StreamingFields::EstRange => StreamingDataView { est_range: d.est_range, ..cur },
        StreamingFields::Heading => StreamingDataView { heading: d.heading, ..cur },
    }
}

/// Whether the gear of a sample survives the line format. A gear that this
/// library has no name for travels as its own text, so that text must not be
/// empty (which reads as "unknown"), must hold no comma, and must not be the
/// letter of a known gear.
pub open spec fn gear_survives(d: StreamingDataView) -> bool {
    match d.shift_state {
        Some(s) => canonical_shift(s) && shift_text(s).len() > 0 && free_of(shift_text(s), ','),
        None => true,
    }
}

proof fn lemma_decimal_value(v: Option<Decimal>)
    ensures
        decimal_of_text(decimal_value_text(v)) == Some(v),
        free_of(decimal_value_text(v), ','),
{
    match v {
        Some(x) => {
            lemma_decimal_text_chars(x.micros as int);
            lemma_parse_decimal_text(x.micros as int);
        },
        None => {},
    }
}

proof fn lemma_int_value(v: int, lo: int, hi: int)
    requires
        lo <= v <= hi,
    ensures
        int_of_text(crate::number::int_text(v), lo, hi) == Some(Some(v)),
        free_of(crate::number::int_text(v), ','),
{
    lemma_int_text_chars(v);
    lemma_parse_int_text(v, lo, hi);
}

/// The text of a value holds no comma, and reading it into any sample sets
/// that value.
pub proof fn lemma_field_roundtrip(cur: StreamingDataView, d: StreamingDataView, f: StreamingFields)
    requires
        f == StreamingFields::ShiftState ==> gear_survives(d),
    ensures
        free_of(field_text(d, f), ','),
        with_field(cur, f, field_text(d, f)) == Some(copy_field(cur, d, f)),
{
    match f {
        StreamingFields::Speed => {
            lemma_decimal_value(d.speed);
        },
        StreamingFields::Odometer => {
            lemma_decimal_value(d.odometer);
        },
        StreamingFields::Soc => {
            if d.soc is Some {
                lemma_int_value(d.soc->0 as int, 0, u8::MAX as int);
            }
        },
        StreamingFields::Elevation => {
            if d.elevation is Some {
                lemma_int_value(d.elevation->0 as int, 0, u32::MAX as int);
            }
        },
        StreamingFields::EstHeading => {
            if d.est_heading is Some {
                lemma_int_value(d.est_heading->0 as int, 0, u16::MAX as int);
            }
        },
        StreamingFields::EstLat => {
            lemma_decimal_value(d.est_lat);
        },
        StreamingFields::EstLng => {
            lemma_decimal_value(d.est_lng);
        },
        StreamingFields::Power => {
            if d.power is Some {
                lemma_int_value(d.power->0 as int, i32::MIN as int, i32::MAX as int);
            }
        },
        StreamingFields::ShiftState => {
            if d.shift_state is Some {
                lemma_shift_roundtrip(d.shift_state->0);
            }
        },
        StreamingFields::Range => {
            lemma_decimal_value(d.range);
        },
        StreamingFields::EstRange => {
            lemma_decimal_value(d.est_range);
        },
        StreamingFields::Heading => {
            if d.heading is Some {
                lemma_int_value(d.heading->0 as int, 0, u16::MAX as int);
            }
        },
    }
}

proof fn lemma_take_contains(fields: Seq<StreamingFields>, n: int, x: StreamingFields)
    requires
        0 <= n < fields.len(),
    ensures
        fields.subrange(0, n + 1).contains(x) <==> (fields.subrange(0, n).contains(x) || fields[n]
            == x),
{
    let a = fields.subrange(0, n);
    let b = fields.subrange(0, n + 1);
    if a.contains(x) {
        let i = choose|i: int| 0 <= i < a.len() && a[i] == x;
        assert(b[i] == x);
    }
    if fields[n] == x {
        assert(b[n] == x);
    }
    if b.contains(x) {
        let i = choose|i: int| 0 <= i < b.len() && b[i] == x;
        if i < n {
            assert(a[i] == x);
        }
    }
}

proof fn lemma_restrict_step(d: StreamingDataView, fields: Seq<StreamingFields>, n: int)
    requires
        0 <= n < fields.len(),
    ensures
        copy_field(restrict(d, fields.subrange(0, n)), d, fields[n]) == restrict(
            d,
            fields.subrange(0, n + 1),
        ),
{
    lemma_take_contains(fields, n, StreamingFields::Speed);
    lemma_take_contains(fields, n, StreamingFields::Odometer);
    lemma_take_contains(fields, n, StreamingFields::Soc);
    lemma_take_contains(fields, n, StreamingFields::Elevation);
    lemma_take_contains(fields, n, StreamingFields::EstHeading);
    lemma_take_contains(fields, n, StreamingFields::EstLat);
    lemma_take_contains(fields, n, StreamingFields::EstLng);
    lemma_take_contains(fields, n, StreamingFields::Power);
    lemma_take_contains(fields, n, StreamingFields::ShiftState);
    lemma_take_contains(fields, n, StreamingFields::Range);
    lemma_take_contains(fields, n, StreamingFields::EstRange);
    lemma_take_contains(fields, n, StreamingFields::Heading);
}

proof fn lemma_decode_from(d: StreamingDataView, fields: Seq<StreamingFields>, n: nat)
    requires
        n <= fields.len(),
        fields.contains(StreamingFields::ShiftState) ==> gear_survives(d),
    ensures
        decode_values(restrict(d, fields.subrange(0, n as int)), line_pieces(fields, d), fields, n)
            == Ok::<StreamingDataView, crate::streaming::StreamingFieldErrorView>(
            restrict(d, fields),
        ),
    decreases fields.len() - n,
{
    let pieces = line_pieces(fields, d);
    let cur = restrict(d, fields.subrange(0, n as int));
    assert(pieces.len() == fields.len() + 1);
    if n == fields.len() {
        assert(fields.subrange(0, n as int) =~= fields);
    } else {
        let f = fields[n as int];
        assert(pieces[n as int + 1] == field_text(d, f));
        if f == StreamingFields::ShiftState {
            assert(fields.contains(StreamingFields::ShiftState));
        }
        lemma_field_roundtrip(cur, d, f);
        lemma_restrict_step(d, fields, n as int);
        lemma_decode_from(d, fields, n + 1);
    }
}

/// Writing a sample for a field list and reading the line back with the same
/// list gives the sample with every value outside the list made unknown.
///
/// Where the gear is among the fields it has to survive the line format (see
/// `gear_survives`); nothing is asked of any other value.
pub proof fn lemma_decode_encode(d: StreamingDataView, fields: Seq<StreamingFields>)
    requires
        fields.contains(StreamingFields::ShiftState) ==> gear_survives(d),
    ensures
        decode_line(d.id, encode_line(fields, d), fields) == Ok::<
            StreamingDataView,
            crate::streaming::StreamingFieldErrorView,
        >(restrict(d, fields)),
{
    let pieces = line_pieces(fields, d);
    assert forall|k: int| 0 <= k < pieces.len() implies free_of(#[trigger] pieces[k], ',') by {
        if k == 0 {
            lemma_int_text_chars(d.time as int);
        } else {
            let f = fields[k - 1];
            assert(pieces[k] == field_text(d, f));
            if f == StreamingFields::ShiftState {
                assert(fields.contains(StreamingFields::ShiftState));
            }
            lemma_field_roundtrip(d, d, f);
        }
    }
    lemma_split_join(pieces, ',');
    lemma_parse_int_text(d.time as int, i64::MIN as int, i64::MAX as int);
    assert(pieces[0] == crate::number::int_text(d.time as int));
    assert(fields.subrange(0, 0) =~= Seq::<StreamingFields>::empty());
    assert(restrict(d, fields.subrange(0, 0)) == blank_sample(d.id, d.time));
    lemma_decode_from(d, fields, 0);
}

/// The order of samples in time survives the line format: of two samples
/// that are written for one field list, the one that is not the later one
/// is not read as the later one either.
pub proof fn lemma_times_in_order(
    first: StreamingDataView,
    second: StreamingDataView,
    fields: Seq<StreamingFields>,
)
    requires
        first.time <= second.time,
        fields.contains(StreamingFields::ShiftState) ==> gear_survives(first) && gear_survives(
            second,
        ),
    ensures
        decode_line(first.id, encode_line(fields, first), fields) is Ok,
        decode_line(second.id, encode_line(fields, second), fields) is Ok,
        decode_line(first.id, encode_line(fields, first), fields)->Ok_0.time <= decode_line(
            second.id,
            encode_line(fields, second),
            fields,
        )->Ok_0.time,
{
    lemma_decode_encode(first, fields);
    lemma_decode_encode(second, fields);
}

/// The names of a list of fields.
pub open spec fn names_of(fields: Seq<StreamingFields>) -> Seq<Seq<char>> {
    Seq::new(fields.len(), |i: int| field_name(fields[i]))
}

proof fn lemma_fields_of_names(fields: Seq<StreamingFields>)
    ensures
        crate::streaming::fields_of_names(names_of(fields)) == fields,
    decreases fields.len(),
{
    if fields.len() > 0 {
        let front = fields.drop_last();
        lemma_fields_of_names(front);
        lemma_field_name_roundtrip(fields.last());
        assert(names_of(fields).drop_last() =~= names_of(front));
        assert(front.push(fields.last()) =~= fields);
    }
}

/// A field list that is written as a subscription and read back is the list
/// again.
pub proof fn lemma_field_list_roundtrip(fields: Seq<StreamingFields>)
    ensures
        crate::streaming::fields_of_names(crate::text::split(join(names_of(fields), ','), ','))
            == fields,
{
    let names = names_of(fields);
    if fields.len() == 0 {
        let text = join(names, ',');
        assert(text.len() == 0);
        assert(crate::text::first_index(text, ',') == 0);
        let pieces = crate::text::split(text, ',');
        assert(pieces == seq![text]);
        assert(pieces.drop_last() =~= Seq::<Seq<char>>::empty());
        reveal_strlit("speed");
        reveal_strlit("odometer");
        reveal_strlit("soc");
        reveal_strlit("elevation");
        reveal_strlit("est_heading");
        reveal_strlit("est_lat");
        reveal_strlit("est_lng");
        reveal_strlit("power");
        reveal_strlit("shift_state");
        reveal_strlit("range");
        reveal_strlit("est_range");
        reveal_strlit("heading");
        assert(field_of_name(text) is None);
        assert(crate::streaming::fields_of_names(pieces.drop_last()) == Seq::<
            StreamingFields,
        >::empty());
        assert(fields =~= Seq::<StreamingFields>::empty());
    } else {
        assert forall|k: int| 0 <= k < names.len() implies free_of(#[trigger] names[k], ',') by {
            lemma_field_name_plain(fields[k]);
        }
        lemma_split_join(names, ',');
        lemma_fields_of_names(fields);
    }
}

proof fn lemma_field_name_plain(f: StreamingFields)
    ensures
        free_of(field_name(f), ','),
{
    reveal_strlit("speed");
    reveal_strlit("odometer");
    reveal_strlit("soc");
    reveal_strlit("elevation");
    reveal_strlit("est_heading");
    reveal_strlit("est_lat");
    reveal_strlit("est_lng");
    reveal_strlit("power");
    reveal_strlit("shift_state");
    reveal_strlit("range");
    reveal_strlit("est_range");
    reveal_strlit("heading");
    assert(field_name(f).len() <= 11);
}

/// Every field is found again by its name.
pub proof fn lemma_field_name_roundtrip(f: StreamingFields)
    ensures
        field_of_name(field_name(f)) == Some(f),
{
    reveal_strlit("speed");
    reveal_strlit("odometer");
    reveal_strlit("soc");
    reveal_strlit("elevation");
    reveal_strlit("est_heading");
    reveal_strlit("est_lat");
    reveal_strlit("est_lng");
    reveal_strlit("power");
    reveal_strlit("shift_state");
    reveal_strlit("range");
    reveal_strlit("est_range");
    reveal_strlit("heading");
    let name = field_name(f);
    // Names of different fields differ in length or in one of their first
    // characters.
    assert("speed"@.len() == 5 && "speed"@[1] == 'p');
    assert("odometer"@.len() == 8);
    assert("soc"@.len() == 3);
    assert("elevation"@.len() == 9 && "elevation"@[1] == 'l');
    assert("est_heading"@.len() == 11 && "est_heading"@[0] == 'e');
    assert("est_lat"@.len() == 7 && "est_lat"@[5] == 'a' && "est_lat"@[0] == 'e');
    assert("est_lng"@.len() == 7 && "est_lng"@[5] == 'n');
    assert("power"@.len() == 5 && "power"@[1] == 'o' && "power"@[0] == 'p');
    assert("shift_state"@.len() == 11 && "shift_state"@[0] == 's');
    assert("range"@.len() == 5 && "range"@[1] == 'a');
    assert("est_range"@.len() == 9 && "est_range"@[1] == 's');
    assert("heading"@.len() == 7 && "heading"@[0] == 'h');
}

} // verus!
