//! Points as the database's client builds them.

use vstd::prelude::*;

use crate::point::Field;
use crate::point::FieldValue;
use crate::point::FieldValueView;
use crate::point::Point;
use crate::point::PointView;
use crate::point::Tag;

verus! {

#[verifier::external_type_specification]
#[verifier::external_body]
pub struct ExDataPointBuilder(influxdb2::models::data_point::DataPointBuilder);

/// What a builder holds: tags and fields by their names, and a time once that has
/// been set.
#[verifier::ext_equal]
pub struct BuilderView {
    pub measurement: Seq<char>,
    pub tags: Map<Seq<char>, Seq<char>>,
    pub fields: Map<Seq<char>, FieldValueView>,
    pub timestamp: Option<i64>,
}

/// The contents of a `DataPointBuilder`.
pub uninterp spec fn builder_contents(
    builder: influxdb2::models::data_point::DataPointBuilder,
) -> BuilderView;

/// `influxdb2::models::DataPoint::builder`: a builder for the measurement, which
/// holds nothing yet.
#[verifier::external_body]
fn builder(measurement: &str) -> (r: influxdb2::models::data_point::DataPointBuilder)
    ensures
        builder_contents(r) == (BuilderView {
            measurement: measurement@,
            tags: Map::empty(),
            fields: Map::empty(),
            timestamp: None,
        }),
{
    influxdb2::models::DataPoint::builder(measurement)
}

/// `DataPointBuilder::tag`: sets a tag, in place of one with the same name.
#[verifier::external_body]
fn set_tag(
    builder: influxdb2::models::data_point::DataPointBuilder,
    name: &str,
    value: &str,
) -> (r: influxdb2::models::data_point::DataPointBuilder)
    ensures
        builder_contents(r) == (BuilderView {
            tags: builder_contents(builder).tags.insert(name@, value@),
            ..builder_contents(builder)
        }),
{
    builder.tag(name, value)
}

/// `DataPointBuilder::field` with an integer: sets a field, in place of one with
/// the same name.
#[verifier::external_body]
fn set_int_field(
    builder: influxdb2::models::data_point::DataPointBuilder,
    name: &str,
    value: i64,
) -> (r: influxdb2::models::data_point::DataPointBuilder)
    ensures
        builder_contents(r) == (BuilderView {
            fields: builder_contents(builder).fields.insert(name@, FieldValueView::Int(value)),
            ..builder_contents(builder)
        }),
{
    builder.field(name, value)
}

/// `DataPointBuilder::field` with a string: sets a field, in place of one with
/// the same name.
#[verifier::external_body]
fn set_text_field(
    builder: influxdb2::models::data_point::DataPointBuilder,
    name: &str,
    value: &str,
) -> (r: influxdb2::models::data_point::DataPointBuilder)
    ensures
        builder_contents(r) == (BuilderView {
            fields: builder_contents(builder).fields.insert(name@, FieldValueView::Text(value@)),
            ..builder_contents(builder)
        }),
{
    builder.field(name, value)
}

/// `DataPointBuilder::timestamp`: sets the time, in place of an earlier one.
#[verifier::external_body]
fn set_timestamp(
    builder: influxdb2::models::data_point::DataPointBuilder,
    value: i64,
) -> (r: influxdb2::models::data_point::DataPointBuilder)
    ensures
        builder_contents(r) == (BuilderView {
            timestamp: Some(value),
            ..builder_contents(builder)
        }),
{
    builder.timestamp(value)
}

/// The tags by their names; of two with one name the later.
pub open spec fn tag_map(tags: Seq<(Seq<char>, Seq<char>)>) -> Map<Seq<char>, Seq<char>>
    decreases tags.len(),
{
    if tags.len() == 0 {
        Map::empty()
    } else {
        tag_map(tags.drop_last()).insert(tags.last().0, tags.last().1)
    }
}

/// The fields that are no floats, by their names; of two with one name the later.
pub open spec fn exact_field_map(fields: Seq<(Seq<char>, FieldValueView)>) -> Map<
    Seq<char>,
    FieldValueView,
>
    decreases fields.len(),
{
    if fields.len() == 0 {
        Map::empty()
    } else {
        let before = exact_field_map(fields.drop_last());
        match fields.last().1 {
            FieldValueView::Float(_) => before,
            value => before.insert(fields.last().0, value),
        }
    }
}

/// What the builder of a point holds before its floats are set.
pub open spec fn point_builder(point: PointView) -> BuilderView {
    BuilderView {
        measurement: point.measurement,
        tags: tag_map(point.tags),
        fields: exact_field_map(point.fields),
        timestamp: Some(point.timestamp),
    }
}

/// The builder of a point, with everything set but its floats.
pub fn to_builder(point: &Point) -> (r: influxdb2::models::data_point::DataPointBuilder)
    ensures
        builder_contents(r) == point_builder(point@),
{
    let ghost tags = point@.tags;
    let ghost fields = point@.fields;
    let mut b: influxdb2::models::data_point::DataPointBuilder = set_timestamp(
        builder(point.measurement.as_str()),
        point.timestamp,
    );
    let ghost start = builder_contents(b);
    let mut i: usize = 0;
    while i < point.tags.len()
        invariant
            i <= point.tags.len(),
            tags == point@.tags,
            builder_contents(b) == (BuilderView { tags: tag_map(tags.take(i as int)), ..start }),
        decreases point.tags.len() - i,
    {
        let tag: &Tag = &point.tags[i];
        proof {
            assert(tags.take(i + 1).drop_last() == tags.take(i as int));
            assert(tags.take(i + 1).last() == tag@);
        }
        b = set_tag(b, tag.name.as_str(), tag.value.as_str());
        i = i + 1;
    }
    assert(tags.take(i as int) == tags);
    let ghost tagged = builder_contents(b);
    let mut k: usize = 0;
    while k < point.fields.len()
        invariant
            k <= point.fields.len(),
            fields == point@.fields,
            builder_contents(b) == (BuilderView {
                fields: exact_field_map(fields.take(k as int)),
                ..tagged
            }),
        decreases point.fields.len() - k,
    {
        let field: &Field = &point.fields[k];
        proof {
            assert(fields.take(k + 1).drop_last() == fields.take(k as int));
            assert(fields.take(k + 1).last() == field@);
        }
        match &field.value {
            FieldValue::Float(_) => {},
            FieldValue::Int(n) => {
                b = set_int_field(b, field.name.as_str(), *n);
            },
            FieldValue::Text(s) => {
                b = set_text_field(b, field.name.as_str(), s.as_str());
            },
        }
        k = k + 1;
    }
    assert(fields.take(k as int) == fields);
    b
}

/// The tags of a point that names none twice are all set.
proof fn lemma_tag_map(tags: Seq<(Seq<char>, Seq<char>)>)
    requires
        forall|i: int, j: int|
            0 <= i < j < tags.len() ==> (#[trigger] tags[i]).0 != (#[trigger] tags[j]).0,
    ensures
        forall|i: int|
            0 <= i < tags.len() ==> tag_map(tags).contains_pair(
                (#[trigger] tags[i]).0,
                tags[i].1,
            ),
    decreases tags.len(),
{
    if tags.len() > 0 {
        let init = tags.drop_last();
        assert forall|i: int, j: int| 0 <= i < j < init.len() implies (#[trigger] init[i]).0 != (
        #[trigger] init[j]).0 by {
            assert(init[i] == tags[i] && init[j] == tags[j]);
        }
        lemma_tag_map(init);
        assert forall|i: int| 0 <= i < tags.len() implies tag_map(tags).contains_pair(
            (#[trigger] tags[i]).0,
            tags[i].1,
        ) by {
            if i < init.len() {
                assert(init[i] == tags[i]);
                assert(tags[tags.len() - 1] == tags.last());
            }
        }
    }
}

/// The fields of a point that names none twice are all set, the floats apart, and
/// a float's name is still free.
proof fn lemma_exact_field_map(fields: Seq<(Seq<char>, FieldValueView)>)
    requires
        forall|i: int, j: int|
            0 <= i < j < fields.len() ==> (#[trigger] fields[i]).0 != (#[trigger] fields[j]).0,
    ensures
        forall|i: int|
            0 <= i < fields.len() ==> if (#[trigger] fields[i]).1 is Float {
                !exact_field_map(fields).contains_key(fields[i].0)
            } else {
                exact_field_map(fields).contains_pair(fields[i].0, fields[i].1)
            },
        forall|name: Seq<char>| #[trigger]
            exact_field_map(fields).contains_key(name) ==> exists|i: int|
                0 <= i < fields.len() && (#[trigger] fields[i]).0 == name,
    decreases fields.len(),
{
    if fields.len() > 0 {
        let init = fields.drop_last();
        let last = fields.len() - 1;
        assert forall|i: int, j: int| 0 <= i < j < init.len() implies (#[trigger] init[i]).0 != (
        #[trigger] init[j]).0 by {
            assert(init[i] == fields[i] && init[j] == fields[j]);
        }
        lemma_exact_field_map(init);
        assert forall|name: Seq<char>| #[trigger]
            exact_field_map(fields).contains_key(name) implies exists|i: int|
            0 <= i < fields.len() && (#[trigger] fields[i]).0 == name by {
            if exact_field_map(init).contains_key(name) {
                let i = choose|i: int| 0 <= i < init.len() && (#[trigger] init[i]).0 == name;
                assert(fields[i].0 == name);
            } else {
                assert(fields[last].0 == name);
            }
        }
        assert forall|i: int| 0 <= i < fields.len() implies if (#[trigger] fields[i]).1 is Float {
            !exact_field_map(fields).contains_key(fields[i].0)
        } else {
            exact_field_map(fields).contains_pair(fields[i].0, fields[i].1)
        } by {
            if i < init.len() {
                assert(init[i] == fields[i]);
                assert(fields[last] == fields.last());
            } else if exact_field_map(init).contains_key(fields[i].0) {
                let k = choose|k: int| 0 <= k < init.len() && (#[trigger] init[k]).0 == fields[i].0;
                assert(init[k] == fields[k]);
            }
        }
    }
}

/// Nothing of a writable point is lost in its builder: every tag and every field
/// that is no float is set, and the name of a float is still free.
pub proof fn law_builder_keeps_the_point(point: PointView)
    requires
        point.is_writable(),
    ensures
        forall|i: int|
            0 <= i < point.tags.len() ==> point_builder(point).tags.contains_pair(
                (#[trigger] point.tags[i]).0,
                point.tags[i].1,
            ),
        forall|i: int|
            0 <= i < point.fields.len() ==> if (#[trigger] point.fields[i]).1 is Float {
                !point_builder(point).fields.contains_key(point.fields[i].0)
            } else {
                point_builder(point).fields.contains_pair(point.fields[i].0, point.fields[i].1)
            },
{
    lemma_tag_map(point.tags);
    lemma_exact_field_map(point.fields);
}

/// A builder holds the point's measurement and time, and no tag or field that the
/// point does not have.
pub proof fn law_builder_adds_nothing(point: PointView)
    ensures
        point_builder(point).measurement == point.measurement,
        point_builder(point).timestamp == Some(point.timestamp),
        forall|name: Seq<char>, value: Seq<char>| #[trigger]
            point_builder(point).tags.contains_pair(name, value) ==> point.tags.contains(
                (name, value),
            ),
        forall|name: Seq<char>, value: FieldValueView| #[trigger]
            point_builder(point).fields.contains_pair(name, value) ==> point.fields.contains(
                (name, value),
            ),
{
    lemma_tags_are_given(point.tags);
    lemma_fields_are_given(point.fields);
}

/// A tag that is set was given.
proof fn lemma_tags_are_given(tags: Seq<(Seq<char>, Seq<char>)>)
    ensures
        forall|name: Seq<char>, value: Seq<char>| #[trigger]
            tag_map(tags).contains_pair(name, value) ==> tags.contains((name, value)),
    decreases tags.len(),
{
    if tags.len() > 0 {
        let init = tags.drop_last();
        lemma_tags_are_given(init);
        assert forall|name: Seq<char>, value: Seq<char>| #[trigger]
            tag_map(tags).contains_pair(name, value) implies tags.contains((name, value)) by {
            if name == tags.last().0 {
                assert(tags[tags.len() - 1] == (name, value));
            } else {
                assert(tag_map(init).contains_pair(name, value));
                let i = choose|i: int| 0 <= i < init.len() && init[i] == (name, value);
                assert(tags[i] == (name, value));
            }
        }
    }
}

/// A field that is set was given.
proof fn lemma_fields_are_given(fields: Seq<(Seq<char>, FieldValueView)>)
    ensures
        forall|name: Seq<char>, value: FieldValueView| #[trigger]
            exact_field_map(fields).contains_pair(name, value) ==> fields.contains((name, value)),
    decreases fields.len(),
{
    if fields.len() > 0 {
        let init = fields.drop_last();
        lemma_fields_are_given(init);
        assert forall|name: Seq<char>, value: FieldValueView| #[trigger]
            exact_field_map(fields).contains_pair(name, value) implies fields.contains(
            (name, value),
        ) by {
            if name == fields.last().0 && !(fields.last().1 is Float) {
                assert(fields[fields.len() - 1] == (name, value));
            } else {
                assert(exact_field_map(init).contains_pair(name, value));
                let i = choose|i: int| 0 <= i < init.len() && init[i] == (name, value);
                assert(fields[i] == (name, value));
            }
        }
    }
}

/// A tag or a field that is given behind the others is set in place of an earlier
/// one with its name; a float is left to be set.
pub proof fn law_later_values_are_kept(
    point: PointView,
    name: Seq<char>,
    text: Seq<char>,
    n: i64,
    bits: u64,
)
    ensures
        point_builder(point.tagged(name, text)).tags == point_builder(point).tags.insert(name, text),
        point_builder(point.with(name, FieldValueView::Int(n))).fields == point_builder(
            point,
        ).fields.insert(name, FieldValueView::Int(n)),
        point_builder(point.with(name, FieldValueView::Text(text))).fields == point_builder(
            point,
        ).fields.insert(name, FieldValueView::Text(text)),
        point_builder(point.with(name, FieldValueView::Float(bits))).fields == point_builder(
            point,
        ).fields,
{
    assert(point.tagged(name, text).tags.drop_last() == point.tags);
    assert(point.with(name, FieldValueView::Int(n)).fields.drop_last() == point.fields);
    assert(point.with(name, FieldValueView::Text(text)).fields.drop_last() == point.fields);
    assert(point.with(name, FieldValueView::Float(bits)).fields.drop_last() == point.fields);
}

} // verus!
