//! Device points: the point that a decoded payload becomes.

use vstd::prelude::*;

use crate::device_table;
use crate::device_table::find_device_spec;
use crate::device_table::DeviceModel;
use crate::device_table::DeviceSpec;
use crate::device_table::FieldMap;
use crate::device_table::FieldModel;
use crate::device_table::FieldType;
use crate::json;
use crate::json::Json;
use crate::point::FieldValue;
use crate::point::FieldValueView;
use crate::point::Point;
use crate::point::PointView;
use crate::time::Timestamp;

verus! {

broadcast use vstd::string::group_string_axioms;

/// The name that a payload gives its device: `unknown` where it gives none.
pub open spec fn device_type_of(decoded: Json) -> Seq<char> {
    match decoded.member("device_type"@) {
        Some(Json::Text(s)) => s,
        _ => "unknown"@,
    }
}

/// What a payload holds for a field: a number of the field's type.
pub open spec fn reading_of(decoded: Json, field: FieldModel) -> Option<FieldValueView> {
    match decoded.member(field.json_key) {
        None => None,
        Some(member) => match field.ty {
            FieldType::F64 => match member.as_bits() {
                Some(bits) => Some(FieldValueView::Float(bits)),
                None => None,
            },
            FieldType::I64 => match member.as_integer() {
                Some(n) => Some(FieldValueView::Int(n)),
                None => None,
            },
        },
    }
}

/// What a payload holds for each of the fields.
pub open spec fn readings_of(decoded: Json, fields: Seq<FieldModel>) -> Seq<
    Option<FieldValueView>,
> {
    fields.map_values(|f: FieldModel| reading_of(decoded, f))
}

/// The fields for which there is a reading, in the order of the table.
pub open spec fn present_fields(
    fields: Seq<FieldModel>,
    readings: Seq<Option<FieldValueView>>,
) -> Seq<(Seq<char>, FieldValueView)>
    decreases fields.len(),
{
    if fields.len() == 0 || readings.len() != fields.len() {
        Seq::empty()
    } else {
        let before = present_fields(fields.drop_last(), readings.drop_last());
        match readings.last() {
            Some(value) => before.push((fields.last().influx_field, value)),
            None => before,
        }
    }
}

/// The point of a known device, if any of its fields has a reading.
pub open spec fn known_point(
    device: DeviceModel,
    device_id: Seq<char>,
    readings: Seq<Option<FieldValueView>>,
    stamp: i64,
) -> Option<PointView> {
    let fields = present_fields(device.fields, readings);
    if fields.len() == 0 {
        None
    } else {
        Some(
            PointView {
                measurement: device.measurement,
                tags: seq![("device_id"@, device_id)],
                fields,
                timestamp: stamp,
            },
        )
    }
}

/// The point of a device that is in no table: its whole payload as text.
pub open spec fn unknown_point(
    device_id: Seq<char>,
    device_type: Seq<char>,
    raw_json: Seq<char>,
    stamp: i64,
) -> PointView {
    PointView {
        measurement: "unknown_device"@,
        tags: seq![("device_id"@, device_id), ("device_type"@, device_type)],
        fields: seq![("raw_json"@, FieldValueView::Text(raw_json))],
        timestamp: stamp,
    }
}

/// The point that a decoded payload becomes.
pub open spec fn device_point(device_id: Seq<char>, decoded: Json, stamp: i64) -> Option<
    PointView,
> {
    let device_type = device_type_of(decoded);
    match device_table::known_device(device_type) {
        Some(device) => known_point(
            device,
            device_id,
            readings_of(decoded, device.fields),
            stamp,
        ),
        None => Some(unknown_point(device_id, device_type, json::json_text(decoded), stamp)),
    }
}

/// The name that a payload gives its device: `unknown` where it gives none.
pub fn device_type(decoded: &serde_json::Value) -> (r: &str)
    ensures
        r@ == device_type_of(json::json_of(*decoded)),
{
    match json::get(decoded, "device_type") {
        Some(member) => match json::as_str(member) {
            Some(s) => s,
            None => "unknown",
        },
        None => "unknown",
    }
}

/// The name that a payload gives its device, if that is in no table.
pub fn unknown_device_type(decoded: &serde_json::Value) -> (r: Option<&str>)
    ensures
        match r {
            Some(name) => {
                &&& name@ == device_type_of(json::json_of(*decoded))
                &&& device_table::known_device(name@) is None
            },
            None => device_table::known_device(device_type_of(json::json_of(*decoded))) is Some,
        },
{
    let name: &str = device_type(decoded);
    match find_device_spec(name) {
        Some(_) => None,
        None => Some(name),
    }
}

/// What a payload holds for a field: a number of the field's type.
pub fn read_field(decoded: &serde_json::Value, field: &FieldMap) -> (r: Option<FieldValue>)
    ensures
        match r {
            Some(value) => reading_of(json::json_of(*decoded), field@) == Some(value@),
            None => reading_of(json::json_of(*decoded), field@) is None,
        },
{
    match json::get(decoded, field.json_key) {
        None => None,
        Some(member) => match field.ty {
            FieldType::F64 => match json::as_float_bits(member) {
                Some(bits) => Some(FieldValue::Float(bits)),
                None => None,
            },
            FieldType::I64 => match json::as_i64(member) {
                Some(n) => Some(FieldValue::Int(n)),
                None => None,
            },
        },
    }
}

/// What each of the optional values holds.
pub open spec fn reading_views(readings: Seq<Option<FieldValue>>) -> Seq<Option<FieldValueView>> {
    readings.map_values(
        |r: Option<FieldValue>|
            match r {
                Some(value) => Some(value@),
                None => None,
            },
    )
}

/// The point of a known device, given the reading of each of its fields.
pub fn build_known_point(
    device: &DeviceSpec,
    device_id: &str,
    readings: &Vec<Option<FieldValue>>,
    timestamp: Timestamp,
) -> (r: Option<Point>)
    requires
        readings.len() == device.fields.len(),
    ensures
        match r {
            Some(point) => known_point(
                device@,
                device_id@,
                reading_views(readings@),
                timestamp.stamp_spec(),
            ) == Some(point@),
            None => known_point(
                device@,
                device_id@,
                reading_views(readings@),
                timestamp.stamp_spec(),
            ) is None,
        },
{
    let ghost fields = device@.fields;
    let ghost views = reading_views(readings@);
    let mut point: Point = Point::new(device.measurement, timestamp.stamp());
    point.tag("device_id", device_id);
    let ghost bare = point@;
    let mut has_any_field: bool = false;
    let mut i: usize = 0;
    while i < device.fields.len()
        invariant
            i <= device.fields.len(),
            readings.len() == device.fields.len(),
            fields == device@.fields,
            views == reading_views(readings@),
            point@ == (PointView {
                fields: present_fields(fields.take(i as int), views.take(i as int)),
                ..bare
            }),
            has_any_field == (present_fields(fields.take(i as int), views.take(i as int)).len()
                > 0),
        decreases device.fields.len() - i,
    {
        proof {
            assert(fields.take(i + 1).drop_last() == fields.take(i as int));
            assert(views.take(i + 1).drop_last() == views.take(i as int));
            assert(fields.take(i + 1).last() == device.fields@[i as int]@);
        }
        if let Some(value) = &readings[i] {
            point.field(device.fields[i].influx_field, value.duplicate());
            has_any_field = true;
        }
        i = i + 1;
    }
    proof {
        assert(fields.take(i as int) == fields);
        assert(views.take(i as int) == views);
        assert(bare.tags == seq![("device_id"@, device_id@)]);
    }
    if has_any_field {
        Some(point)
    } else {
        None
    }
}

/// The point of a device that is in no table: its whole payload as text.
pub fn build_unknown_point(
    device_id: &str,
    device_type: &str,
    raw_json: String,
    timestamp: Timestamp,
) -> (r: Point)
    ensures
        r@ == unknown_point(device_id@, device_type@, raw_json@, timestamp.stamp_spec()),
{
    let mut point: Point = Point::new("unknown_device", timestamp.stamp());
    point.tag("device_id", device_id);
    point.tag("device_type", device_type);
    point.field("raw_json", FieldValue::Text(raw_json));
    assert(point@ =~= unknown_point(device_id@, device_type@, raw_json@, timestamp.stamp_spec()));
    point
}

/// The point that a decoded payload becomes: for a known device its readings, if
/// there are any, for any other the whole payload as text.
pub fn build_device_point(
    device_id: &str,
    decoded: &serde_json::Value,
    timestamp: Timestamp,
) -> (r: Option<Point>)
    ensures
        match r {
            Some(point) => device_point(
                device_id@,
                json::json_of(*decoded),
                timestamp.stamp_spec(),
            ) == Some(point@),
            None => device_point(
                device_id@,
                json::json_of(*decoded),
                timestamp.stamp_spec(),
            ) is None,
        },
{
    let name: &str = device_type(decoded);
    match find_device_spec(name) {
        Some(device) => {
            let ghost contents = json::json_of(*decoded);
            let mut readings: Vec<Option<FieldValue>> = Vec::new();
            let mut i: usize = 0;
            while i < device.fields.len()
                invariant
                    i <= device.fields.len(),
                    contents == json::json_of(*decoded),
                    reading_views(readings@) == readings_of(contents, device@.fields).take(i as int),
                decreases device.fields.len() - i,
            {
                let reading: Option<FieldValue> = read_field(decoded, &device.fields[i]);
                proof {
                    let all = readings_of(contents, device@.fields);
                    assert(device@.fields[i as int] == device.fields@[i as int]@);
                    assert(all.take(i + 1) == all.take(i as int).push(all[i as int]));
                    assert(reading_views(readings@.push(reading)) == all.take(i + 1));
                }
                readings.push(reading);
                i = i + 1;
            }
            proof {
                let all = readings_of(contents, device@.fields);
                assert(all.take(i as int) == all);
                assert(reading_views(readings@).len() == readings@.len());
            }
            build_known_point(&device, device_id, &readings, timestamp)
        },
        None => Some(
            build_unknown_point(device_id, name, json::to_text(decoded), timestamp),
        ),
    }
}

/// A payload that gives no device type, or one that is in no table, is never
/// dropped: its whole text is kept.
pub proof fn law_unknown_devices_are_kept(device_id: Seq<char>, decoded: Json, stamp: i64)
    requires
        !(decoded.member("device_type"@) matches Some(Json::Text(_)))
            || device_table::known_device(device_type_of(decoded)) is None,
    ensures
        device_point(device_id, decoded, stamp) == Some(
            unknown_point(device_id, device_type_of(decoded), json::json_text(decoded), stamp),
        ),
{
    if device_type_of(decoded) == "unknown"@ {
        let table = device_table::device_table();
        device_table::lemma_find_entry(table, "unknown"@, 0);
        if let Some(device) = device_table::known_device("unknown"@) {
            let k = choose|k: int| 0 <= k < table.len() && #[trigger] table[k] == device;
            if k > 0 {
                device_table::law_device_types_are_distinct(0, k);
            } else {
                device_table::law_device_types_are_distinct(0, 1);
            }
        }
    }
}

/// The fields of a point are fields of the device, each at most once, with what
/// was read for them.
proof fn lemma_present_fields(fields: Seq<FieldModel>, readings: Seq<Option<FieldValueView>>)
    requires
        fields.len() == readings.len(),
    ensures
        present_fields(fields, readings).len() <= fields.len(),
        forall|i: int|
            0 <= i < present_fields(fields, readings).len() ==> exists|k: int|
                0 <= k < fields.len() && (#[trigger] present_fields(fields, readings)[i]).0
                    == fields[k].influx_field && readings[k] == Some(
                    present_fields(fields, readings)[i].1,
                ),
        device_table::fields_are_distinct(fields) ==> forall|i: int, j: int|
            0 <= i < j < present_fields(fields, readings).len() ==> (
            #[trigger] present_fields(fields, readings)[i]).0 != (#[trigger] present_fields(
                fields,
                readings,
            )[j]).0,
    decreases fields.len(),
{
    if fields.len() > 0 {
        let init = fields.drop_last();
        let before = present_fields(init, readings.drop_last());
        let all = present_fields(fields, readings);
        lemma_present_fields(init, readings.drop_last());
        assert forall|i: int| 0 <= i < all.len() implies exists|k: int|
            0 <= k < fields.len() && (#[trigger] all[i]).0 == fields[k].influx_field && readings[k]
                == Some(all[i].1) by {
            if i < before.len() {
                let k = choose|k: int|
                    0 <= k < init.len() && before[i].0 == init[k].influx_field
                        && readings.drop_last()[k] == Some(before[i].1);
                assert(fields[k] == init[k] && readings[k] == readings.drop_last()[k]);
            } else {
                assert(all[i].0 == fields[fields.len() - 1].influx_field);
            }
        }
        if device_table::fields_are_distinct(fields) {
            assert forall|a: int, b: int| 0 <= a < b < init.len() implies (
            #[trigger] init[a]).influx_field != (#[trigger] init[b]).influx_field by {
                assert(init[a] == fields[a] && init[b] == fields[b]);
            }
            assert forall|i: int, j: int| 0 <= i < j < all.len() implies (#[trigger] all[i]).0 != (
            #[trigger] all[j]).0 by {
                assert(all[i] == before[i]);
                if j < before.len() {
                    assert(all[j] == before[j]);
                } else {
                    let k = choose|k: int|
                        0 <= k < init.len() && before[i].0 == init[k].influx_field;
                    assert(fields[k] == init[k]);
                    assert(all[j].0 == fields[fields.len() - 1].influx_field);
                }
            }
        }
    }
}

/// A number that the payload holds for a field of a known device becomes that
/// field of its point, and a point has no other fields.
pub proof fn law_point_holds_the_readings(
    fields: Seq<FieldModel>,
    readings: Seq<Option<FieldValueView>>,
    k: int,
)
    requires
        fields.len() == readings.len(),
        0 <= k < fields.len(),
    ensures
        readings[k] matches Some(value) ==> present_fields(fields, readings).contains(
            (fields[k].influx_field, value),
        ),
        forall|i: int|
            0 <= i < present_fields(fields, readings).len() ==> exists|m: int|
                0 <= m < fields.len() && (#[trigger] present_fields(fields, readings)[i]).0
                    == fields[m].influx_field && readings[m] == Some(
                    present_fields(fields, readings)[i].1,
                ),
    decreases fields.len(),
{
    lemma_present_fields(fields, readings);
    let init = fields.drop_last();
    let before = present_fields(init, readings.drop_last());
    let all = present_fields(fields, readings);
    if let Some(value) = readings[k] {
        if k < init.len() {
            law_point_holds_the_readings(init, readings.drop_last(), k);
            let i = choose|i: int|
                0 <= i < before.len() && before[i] == (fields[k].influx_field, value);
            assert(all[i] == before[i]);
        } else {
            assert(all[all.len() - 1] == (fields[k].influx_field, value));
        }
    }
}

/// The point of a payload can be written as it stands: it has a field, and no
/// tag or field is given twice. It carries the device's id and the time.
pub proof fn law_device_point_is_writable(device_id: Seq<char>, decoded: Json, stamp: i64)
    ensures
        device_point(device_id, decoded, stamp) matches Some(p) ==> {
            &&& p.is_writable()
            &&& p.tags[0] == ("device_id"@, device_id)
            &&& p.timestamp == stamp
        },
{
    let table = device_table::device_table();
    let device_type = device_type_of(decoded);
    device_table::lemma_find_entry(table, device_type, 0);
    match device_table::known_device(device_type) {
        Some(device) => {
            let k = choose|k: int| 0 <= k < table.len() && #[trigger] table[k] == device;
            device_table::law_device_fields_are_distinct(k);
            lemma_present_fields(device.fields, readings_of(decoded, device.fields));
        },
        None => {
            reveal_strlit("device_id");
            reveal_strlit("device_type");
            assert("device_id"@.len() != "device_type"@.len());
        },
    }
}

/// Whether an object with these members gives `value` for a field: any number is
/// its double for a field of floats, and an integer is itself for a field of
/// integers.
pub open spec fn gives(
    members: Map<Seq<char>, Json>,
    field: FieldModel,
    value: FieldValueView,
) -> bool {
    &&& members.contains_key(field.json_key)
    &&& match (field.ty, members[field.json_key], value) {
        (FieldType::F64, Json::Number { float_bits, .. }, FieldValueView::Float(bits)) => bits
            == float_bits,
        (FieldType::I64, Json::Number { integer: Some(n), .. }, FieldValueView::Int(m)) => m == n,
        _ => false,
    }
}

/// A payload's reading for a field is the number that it gives, whatever that is,
/// and there is none where it gives none. What is no object has no readings.
pub proof fn law_readings_are_the_payloads_numbers(
    members: Map<Seq<char>, Json>,
    field: FieldModel,
    value: FieldValueView,
    other: Json,
)
    requires
        !(other is Object),
    ensures
        reading_of(Json::Object(members), field) == Some(value) <==> gives(members, field, value),
        (forall|v: FieldValueView| !gives(members, field, v)) <==> reading_of(
            Json::Object(members),
            field,
        ) is None,
        reading_of(other, field) is None,
{
    if let Some(v) = reading_of(Json::Object(members), field) {
        assert(gives(members, field, v));
    }
}

/// A payload names its device by the text of its member `device_type`, whatever
/// that is; one without such a text is of an unknown device.
pub proof fn law_payload_names_its_device(
    members: Map<Seq<char>, Json>,
    name: Seq<char>,
    other: Json,
)
    requires
        !(other is Object),
    ensures
        members.contains_key("device_type"@) && members["device_type"@] == Json::Text(name)
            ==> device_type_of(Json::Object(members)) == name,
        !members.contains_key("device_type"@) ==> device_type_of(Json::Object(members))
            == "unknown"@,
        members.contains_key("device_type"@) && !(members["device_type"@] is Text)
            ==> device_type_of(Json::Object(members)) == "unknown"@,
        device_type_of(other) == "unknown"@,
{
}

/// The fields of a point stand in the order of the table: those of one part of
/// the table, and then those of the next.
pub proof fn law_fields_stand_in_order(
    fields: Seq<FieldModel>,
    readings: Seq<Option<FieldValueView>>,
    field: FieldModel,
    reading: Option<FieldValueView>,
)
    requires
        fields.len() == readings.len(),
    ensures
        present_fields(Seq::empty(), Seq::empty()).len() == 0,
        present_fields(fields.push(field), readings.push(reading)) == present_fields(
            fields,
            readings,
        ) + (match reading {
            Some(value) => seq![(field.influx_field, value)],
            None => Seq::empty(),
        }),
{
    assert(fields.push(field).drop_last() == fields);
    assert(readings.push(reading).drop_last() == readings);
}

/// A known device's payload becomes a point of its measurement exactly where it
/// gives a number for some field of the device; the point then holds every number
/// that it gives, as it is and under its field's name, and nothing else, and it
/// carries the device's id and the time.
pub proof fn law_known_device_keeps_its_numbers(
    device_id: Seq<char>,
    members: Map<Seq<char>, Json>,
    name: Seq<char>,
    stamp: i64,
)
    requires
        members.contains_key("device_type"@),
        members["device_type"@] == Json::Text(name),
        device_table::known_device(name) is Some,
    ensures
        ({
            let fields = device_table::known_device(name)->0.fields;
            match device_point(device_id, Json::Object(members), stamp) {
                Some(p) => {
                    &&& p.measurement == device_table::known_device(name)->0.measurement
                    &&& p.tags == seq![("device_id"@, device_id)]
                    &&& p.timestamp == stamp
                    &&& p.fields.len() > 0
                    &&& forall|k: int, value: FieldValueView|
                        0 <= k < fields.len() && #[trigger] gives(members, fields[k], value)
                            ==> p.fields.contains((fields[k].influx_field, value))
                    &&& forall|i: int|
                        0 <= i < p.fields.len() ==> exists|k: int|
                            0 <= k < fields.len() && (#[trigger] p.fields[i]).0
                                == fields[k].influx_field && gives(
                                members,
                                #[trigger] fields[k],
                                p.fields[i].1,
                            )
                },
                None => forall|k: int, value: FieldValueView|
                    0 <= k < fields.len() ==> !#[trigger] gives(members, fields[k], value),
            }
        }),
{
    let decoded = Json::Object(members);
    let fields = device_table::known_device(name)->0.fields;
    let readings = readings_of(decoded, fields);
    let all = present_fields(fields, readings);
    lemma_present_fields(fields, readings);
    assert forall|k: int, value: FieldValueView|
        0 <= k < fields.len() && #[trigger] gives(members, fields[k], value) implies all.contains(
        (fields[k].influx_field, value),
    ) by {
        law_readings_are_the_payloads_numbers(members, fields[k], value, Json::Null);
        assert(readings[k] == Some(value));
        law_point_holds_the_readings(fields, readings, k);
    }
    assert forall|i: int| 0 <= i < all.len() implies exists|k: int|
        0 <= k < fields.len() && (#[trigger] all[i]).0 == fields[k].influx_field && gives(
            members,
            #[trigger] fields[k],
            all[i].1,
        ) by {
        let k = choose|k: int|
            0 <= k < fields.len() && all[i].0 == fields[k].influx_field && readings[k] == Some(
                all[i].1,
            );
        law_readings_are_the_payloads_numbers(members, fields[k], all[i].1, Json::Null);
        assert(gives(members, fields[k], all[i].1));
    }
}

/// An unknown device's point holds its name, its id, its whole payload as text
/// and the time, and nothing else.
pub proof fn law_unknown_point_holds_the_payload(
    device_id: Seq<char>,
    device_type: Seq<char>,
    raw_json: Seq<char>,
    stamp: i64,
)
    ensures
        ({
            let p = unknown_point(device_id, device_type, raw_json, stamp);
            &&& p.measurement == "unknown_device"@
            &&& p.tags.len() == 2 && p.tags[0] == ("device_id"@, device_id) && p.tags[1] == (
                "device_type"@,
                device_type,
            )
            &&& p.fields.len() == 1 && p.fields[0] == (
                "raw_json"@,
                FieldValueView::Text(raw_json),
            )
            &&& p.timestamp == stamp
        }),
{
}

/// Optional values hold what each of them holds, in their order.
pub proof fn law_every_reading_is_shown(readings: Seq<Option<FieldValue>>, i: int)
    requires
        0 <= i < readings.len(),
    ensures
        reading_views(readings).len() == readings.len(),
        match readings[i] {
            Some(value) => reading_views(readings)[i] == Some(value@),
            None => reading_views(readings)[i] is None,
        },
{
}

/// The readings of a known device become a point of its measurement exactly where
/// there is one among them, and it holds no more than the readings.
pub proof fn law_known_point_needs_a_reading(
    device: DeviceModel,
    device_id: Seq<char>,
    readings: Seq<Option<FieldValueView>>,
    stamp: i64,
)
    requires
        device.fields.len() == readings.len(),
    ensures
        match known_point(device, device_id, readings, stamp) {
            Some(p) => {
                &&& p.measurement == device.measurement
                &&& p.tags == seq![("device_id"@, device_id)]
                &&& p.timestamp == stamp
                &&& 0 < p.fields.len() <= readings.len()
                &&& forall|k: int|
                    0 <= k < readings.len() && (#[trigger] readings[k]) is Some
                        ==> p.fields.contains((device.fields[k].influx_field, readings[k]->0))
            },
            None => forall|k: int| 0 <= k < readings.len() ==> (#[trigger] readings[k]) is None,
        },
{
    lemma_present_fields(device.fields, readings);
    assert forall|k: int| 0 <= k < readings.len() && (#[trigger] readings[k]) is Some implies
        present_fields(device.fields, readings).contains(
        (device.fields[k].influx_field, readings[k]->0),
    ) by {
        law_point_holds_the_readings(device.fields, readings, k);
    }
}

} // verus!
