//! Data points: a measurement with its tags, its fields and its time.

use vstd::prelude::*;

verus! {

/// The value of a field. A float is held by the bits of its double.
pub enum FieldValue {
    Float(u64),
    Int(i64),
    Text(String),
}

/// What a `FieldValue` holds.
pub enum FieldValueView {
    Float(u64),
    Int(i64),
    Text(Seq<char>),
}

impl View for FieldValue {
    type V = FieldValueView;

    open spec fn view(&self) -> FieldValueView {
        match self {
            FieldValue::Float(bits) => FieldValueView::Float(*bits),
            FieldValue::Int(n) => FieldValueView::Int(*n),
            FieldValue::Text(s) => FieldValueView::Text(s@),
        }
    }
}

impl FieldValue {
    /// A second value that holds the same.
    pub fn duplicate(&self) -> (r: FieldValue)
        ensures
            r@ == self@,
    {
        match self {
            FieldValue::Float(bits) => FieldValue::Float(*bits),
            FieldValue::Int(n) => FieldValue::Int(*n),
            FieldValue::Text(s) => FieldValue::Text(s.clone()),
        }
    }
}

/// A tag of a point.
pub struct Tag {
    pub name: String,
    pub value: String,
}

impl View for Tag {
    type V = (Seq<char>, Seq<char>);

    open spec fn view(&self) -> (Seq<char>, Seq<char>) {
        (self.name@, self.value@)
    }
}

/// A field of a point.
pub struct Field {
    pub name: String,
    pub value: FieldValue,
}

impl View for Field {
    type V = (Seq<char>, FieldValueView);

    open spec fn view(&self) -> (Seq<char>, FieldValueView) {
        (self.name@, self.value@)
    }
}

/// A point to be written. Its time is in nanoseconds since the Unix epoch.
pub struct Point {
    pub measurement: String,
    pub tags: Vec<Tag>,
    pub fields: Vec<Field>,
    pub timestamp: i64,
}

/// What a `Point` holds.
#[verifier::ext_equal]
pub struct PointView {
    pub measurement: Seq<char>,
    pub tags: Seq<(Seq<char>, Seq<char>)>,
    pub fields: Seq<(Seq<char>, FieldValueView)>,
    pub timestamp: i64,
}

impl View for Point {
    type V = PointView;

    open spec fn view(&self) -> PointView {
        PointView {
            measurement: self.measurement@,
            tags: self.tags@.map_values(|t: Tag| t@),
            fields: self.fields@.map_values(|f: Field| f@),
            timestamp: self.timestamp,
        }
    }
}

/// What each of the points holds.
pub open spec fn point_views(points: Seq<Point>) -> Seq<PointView> {
    points.map_values(|p: Point| p@)
}

impl PointView {
    /// A point without tags and fields.
    pub open spec fn blank(measurement: Seq<char>, timestamp: i64) -> PointView {
        PointView { measurement, tags: Seq::empty(), fields: Seq::empty(), timestamp }
    }

    /// The point with one more tag.
    pub open spec fn tagged(self, name: Seq<char>, value: Seq<char>) -> PointView {
        PointView { tags: self.tags.push((name, value)), ..self }
    }

    /// The point with one more field.
    pub open spec fn with(self, name: Seq<char>, value: FieldValueView) -> PointView {
        PointView { fields: self.fields.push((name, value)), ..self }
    }

    /// Whether the database accepts the point as it stands: it has a field, and
    /// no tag or field is given twice.
    pub open spec fn is_writable(self) -> bool {
        &&& self.fields.len() > 0
        &&& forall|i: int, j: int|
            0 <= i < j < self.tags.len() ==> (#[trigger] self.tags[i]).0 != (
            #[trigger] self.tags[j]).0
        &&& forall|i: int, j: int|
            0 <= i < j < self.fields.len() ==> (#[trigger] self.fields[i]).0 != (
            #[trigger] self.fields[j]).0
    }
}

impl Point {
    /// A point without tags and fields.
    pub fn new(measurement: &str, timestamp: i64) -> (r: Point)
        ensures
            r@ == PointView::blank(measurement@, timestamp),
    {
        Point { measurement: measurement.to_owned(), tags: Vec::new(), fields: Vec::new(), timestamp }
    }

    /// Adds a tag.
    pub fn tag(&mut self, name: &str, value: &str)
        ensures
            final(self)@ == old(self)@.tagged(name@, value@),
    {
        self.tags.push(Tag { name: name.to_owned(), value: value.to_owned() });
        assert(self@.tags == old(self)@.tagged(name@, value@).tags);
    }

    /// Adds a field.
    pub fn field(&mut self, name: &str, value: FieldValue)
        ensures
            final(self)@ == old(self)@.with(name@, value@),
    {
        self.fields.push(Field { name: name.to_owned(), value });
        assert(self@.fields == old(self)@.with(name@, value@).fields);
    }
}

/// What a point holds is all of it: its measurement, its time, and each of its
/// tags and fields with name and value, in their order.
pub proof fn law_point_shows_everything(point: Point, i: int)
    ensures
        point@.measurement == point.measurement@,
        point@.timestamp == point.timestamp,
        point@.tags.len() == point.tags@.len(),
        point@.fields.len() == point.fields@.len(),
        0 <= i < point.tags@.len() ==> point@.tags[i].0 == point.tags@[i].name@ && point@.tags[i].1
            == point.tags@[i].value@,
        0 <= i < point.fields@.len() ==> point@.fields[i].0 == point.fields@[i].name@
            && point@.fields[i].1 == point.fields@[i].value@,
{
}

/// A value holds the bits, the integer or the text that it was made of.
pub proof fn law_value_shows_what_it_holds(bits: u64, n: i64, text: String)
    ensures
        FieldValue::Float(bits)@ == FieldValueView::Float(bits),
        FieldValue::Int(n)@ == FieldValueView::Int(n),
        FieldValue::Text(text)@ == FieldValueView::Text(text@),
{
}

/// What several points hold is what each of them holds, in their order.
pub proof fn law_every_point_is_shown(points: Seq<Point>, i: int)
    requires
        0 <= i < points.len(),
    ensures
        point_views(points).len() == points.len(),
        point_views(points)[i] == points[i]@,
{
}

/// A point begins without tags and fields. A tag or a field that is added stands
/// behind those that are there, with its name and its value, and nothing else
/// changes.
pub proof fn law_points_grow_by_what_is_added(
    point: PointView,
    name: Seq<char>,
    text: Seq<char>,
    value: FieldValueView,
    stamp: i64,
)
    ensures
        PointView::blank(name, stamp).measurement == name,
        PointView::blank(name, stamp).timestamp == stamp,
        PointView::blank(name, stamp).tags.len() == 0,
        PointView::blank(name, stamp).fields.len() == 0,
        point.tagged(name, text).tags == point.tags + seq![(name, text)],
        point.tagged(name, text).fields == point.fields,
        point.tagged(name, text).measurement == point.measurement,
        point.tagged(name, text).timestamp == point.timestamp,
        point.with(name, value).fields == point.fields + seq![(name, value)],
        point.with(name, value).tags == point.tags,
        point.with(name, value).measurement == point.measurement,
        point.with(name, value).timestamp == point.timestamp,
{
}

} // verus!
