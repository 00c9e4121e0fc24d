//! JSON values: the fields of a request as the rules read them, and the trees that answer it.
use vstd::prelude::*;

verus! {

/// A double, carried by its IEEE 754 bit pattern.
#[derive(Clone, Copy, Debug, PartialEq, Eq, Structural)]
pub struct Double {
    pub bits: u64,
}

impl Double {
    /// Neither an infinity nor a NaN: the eleven exponent bits are not all set.
    pub open spec fn finite(self) -> bool {
        (self.bits as int / 0x10_0000_0000_0000) % 0x800 != 0x7ff
    }

    /// Whether the double is neither an infinity nor a NaN.
    pub fn is_finite(&self) -> (finite: bool)
        ensures
            finite == self.finite(),
    {
        (self.bits / 0x10_0000_0000_0000) % 0x800 != 0x7ff
    }
}

/// A JSON number: a natural number, a negative integer or a double.
#[derive(Clone, Copy, Debug, PartialEq, Eq, Structural)]
pub enum JsonNumber {
    PosInt(u64),
    NegInt(i64),
    Float(Double),
}

impl JsonNumber {
    /// The number as a signed integer, where it is an integer in range.
    pub open spec fn integer(self) -> Option<i64> {
        match self {
            JsonNumber::PosInt(n) => if n <= i64::MAX {
                Some(n as i64)
            } else {
                None
            },
            JsonNumber::NegInt(n) => Some(n),
            JsonNumber::Float(_) => None,
        }
    }

    /// Every integer is finite; a double is where its bit pattern says so.
    pub open spec fn finite(self) -> bool {
        match self {
            JsonNumber::Float(d) => d.finite(),
            _ => true,
        }
    }

    /// The number that stands for a signed integer.
    pub open spec fn of_integer(n: i64) -> JsonNumber {
        if n >= 0 {
            JsonNumber::PosInt(n as u64)
        } else {
            JsonNumber::NegInt(n)
        }
    }

    /// The number as a signed integer, where it is an integer in range.
    pub fn as_i64(&self) -> (n: Option<i64>)
        ensures
            n == self.integer(),
    {
        match *self {
            JsonNumber::PosInt(n) => if n <= 0x7fff_ffff_ffff_ffff {
                Some(n as i64)
            } else {
                None
            },
            JsonNumber::NegInt(n) => Some(n),
            JsonNumber::Float(_) => None,
        }
    }

    /// Whether the number is finite.
    pub fn is_finite(&self) -> (finite: bool)
        ensures
            finite == self.finite(),
    {
        match *self {
            JsonNumber::Float(d) => d.is_finite(),
            _ => true,
        }
    }

    /// The number that stands for a signed integer.
    pub fn from_i64(n: i64) -> (number: JsonNumber)
        ensures
            number == JsonNumber::of_integer(n),
    {
        if n >= 0 {
            JsonNumber::PosInt(n as u64)
        } else {
            JsonNumber::NegInt(n)
        }
    }
}

/// What a request holds under one field name. Of an array or an object only the kind is
/// kept: no field may hold one.
pub enum Field {
    Null,
    Bool(bool),
    Number(JsonNumber),
    Text(String),
    Array,
    Object,
}

/// The mathematical value of a [`Field`].
pub enum FieldView {
    Null,
    Bool(bool),
    Number(JsonNumber),
    Text(Seq<char>),
    Array,
    Object,
}

impl View for Field {
    type V = FieldView;

    open spec fn view(&self) -> FieldView {
        match self {
            Field::Null => FieldView::Null,
            Field::Bool(b) => FieldView::Bool(*b),
            Field::Number(n) => FieldView::Number(*n),
            Field::Text(t) => FieldView::Text(t@),
            Field::Array => FieldView::Array,
            Field::Object => FieldView::Object,
        }
    }
}

impl FieldView {
    /// Neither an array nor an object.
    pub open spec fn scalar(self) -> bool {
        !(self is Array) && !(self is Object)
    }

    /// The integer that the field holds, if it holds one.
    pub open spec fn integer(self) -> Option<i64> {
        match self {
            FieldView::Number(n) => n.integer(),
            _ => None,
        }
    }
}

impl Field {
    /// The integer that the field holds, if it holds one.
    pub fn as_i64(&self) -> (n: Option<i64>)
        ensures
            n == self@.integer(),
    {
        match self {
            Field::Number(n) => n.as_i64(),
            _ => None,
        }
    }

    /// Whether the field holds neither an array nor an object.
    pub fn is_scalar(&self) -> (scalar: bool)
        ensures
            scalar == self@.scalar(),
    {
        match self {
            Field::Array => false,
            Field::Object => false,
            _ => true,
        }
    }

    /// Whether the field holds `null`.
    pub fn is_null(&self) -> (null: bool)
        ensures
            null == (self@ is Null),
    {
        match self {
            Field::Null => true,
            _ => false,
        }
    }
}

impl Clone for Field {
    fn clone(&self) -> (copy: Self)
        ensures
            copy@ == self@,
    {
        match self {
            Field::Null => Field::Null,
            Field::Bool(b) => Field::Bool(*b),
            Field::Number(n) => Field::Number(*n),
            Field::Text(t) => Field::Text(t.clone()),
            Field::Array => Field::Array,
            Field::Object => Field::Object,
        }
    }
}

/// A JSON tree, as it is sent.
#[derive(Debug, PartialEq)]
pub enum Json {
    Null,
    Number(JsonNumber),
    Text(String),
    Array(Vec<Json>),
    Object(Vec<(String, Json)>),
}

/// The mathematical value of a [`Json`] tree.
#[verifier::ext_equal]
pub enum JsonView {
    Null,
    Number(JsonNumber),
    Text(Seq<char>),
    Array(Seq<JsonView>),
    Object(Seq<(Seq<char>, JsonView)>),
}

impl View for Json {
    type V = JsonView;

    open spec fn view(&self) -> JsonView
        decreases self,
    {
        match self {
            Json::Null => JsonView::Null,
            Json::Number(n) => JsonView::Number(*n),
            Json::Text(t) => JsonView::Text(t@),
            Json::Array(items) => JsonView::Array(
                Seq::new(
                    items@.len(),
                    |i: int|
                        if 0 <= i < items@.len() {
                            items@[i].view()
                        } else {
                            arbitrary()
                        },
                ),
            ),
            Json::Object(members) => JsonView::Object(
                Seq::new(
                    members@.len(),
                    |i: int|
                        if 0 <= i < members@.len() {
                            (members@[i].0@, members@[i].1.view())
                        } else {
                            arbitrary()
                        },
                ),
            ),
        }
    }
}

/// The views of a list of trees.
pub open spec fn item_views(items: Seq<Json>) -> Seq<JsonView> {
    items.map_values(|item: Json| item@)
}

/// The views of the members of an object.
pub open spec fn member_views(members: Seq<(String, Json)>) -> Seq<(Seq<char>, JsonView)> {
    members.map_values(|member: (String, Json)| (member.0@, member.1@))
}

/// The tree that stands for a signed integer.
pub open spec fn integer_tree(n: i64) -> JsonView {
    JsonView::Number(JsonNumber::of_integer(n))
}

/// The tree that stands for an optional integer: `null` where it is absent.
pub open spec fn optional_integer_tree(n: Option<i64>) -> JsonView {
    match n {
        Some(n) => integer_tree(n),
        None => JsonView::Null,
    }
}

/// The tree that stands for a double: `null` where it is not finite.
pub open spec fn double_tree(d: Double) -> JsonView {
    if d.finite() {
        JsonView::Number(JsonNumber::Float(d))
    } else {
        JsonView::Null
    }
}

/// The tree that stands for a text.
pub fn text(t: &str) -> (json: Json)
    ensures
        json@ == JsonView::Text(t@),
{
    Json::Text(t.to_owned())
}

/// The tree that stands for a signed integer.
pub fn integer(n: i64) -> (json: Json)
    ensures
        json@ == integer_tree(n),
{
    Json::Number(JsonNumber::from_i64(n))
}

/// The tree that stands for a count.
pub fn count(n: usize) -> (json: Json)
    ensures
        json@ == JsonView::Number(JsonNumber::PosInt(n as u64)),
{
    Json::Number(JsonNumber::PosInt(n as u64))
}

/// The tree that stands for an optional integer.
pub fn optional_integer(n: Option<i64>) -> (json: Json)
    ensures
        json@ == optional_integer_tree(n),
{
    match n {
        Some(n) => integer(n),
        None => Json::Null,
    }
}

/// The tree that stands for a double.
pub fn double(d: Double) -> (json: Json)
    ensures
        json@ == double_tree(d),
{
    if d.is_finite() {
        Json::Number(JsonNumber::Float(d))
    } else {
        Json::Null
    }
}

/// The array of the items.
pub fn array(items: Vec<Json>) -> (json: Json)
    ensures
        json@ == JsonView::Array(item_views(items@)),
{
    let json = Json::Array(items);
    proof {
        reveal_with_fuel(<Json as View>::view, 2);
    }
    assert(json@->Array_0 =~= item_views(items@));
    json
}

/// The object of the members.
pub fn object(members: Vec<(String, Json)>) -> (json: Json)
    ensures
        json@ == JsonView::Object(member_views(members@)),
{
    let json = Json::Object(members);
    proof {
        reveal_with_fuel(<Json as View>::view, 2);
    }
    assert(json@->Object_0 =~= member_views(members@));
    json
}

/// An object's members before the first is added.
pub fn no_members() -> (members: Vec<(String, Json)>)
    ensures
        member_views(members@) == Seq::<(Seq<char>, JsonView)>::empty(),
{
    let members: Vec<(String, Json)> = Vec::new();
    assert(member_views(members@) =~= Seq::empty());
    members
}

/// Adds a member behind the others.
pub fn put_member(members: &mut Vec<(String, Json)>, name: &str, value: Json)
    ensures
        member_views(final(members)@) == member_views(old(members)@).push((name@, value@)),
{
    members.push((name.to_owned(), value));
    assert(member_views(members@) =~= member_views(old(members)@).push((name@, value@)));
}

/// The object with one member.
pub fn object1(name: &str, value: Json) -> (json: Json)
    ensures
        json@ == JsonView::Object(seq![(name@, value@)]),
{
    let mut members = no_members();
    put_member(&mut members, name, value);
    assert(member_views(members@) =~= seq![(name@, value@)]);
    object(members)
}

/// The object with two members.
pub fn object2(name1: &str, value1: Json, name2: &str, value2: Json) -> (json: Json)
    ensures
        json@ == JsonView::Object(seq![(name1@, value1@), (name2@, value2@)]),
{
    let mut members = no_members();
    put_member(&mut members, name1, value1);
    put_member(&mut members, name2, value2);
    assert(member_views(members@) =~= seq![(name1@, value1@), (name2@, value2@)]);
    object(members)
}

/// What stands under `name` among the members of an object: of several, the last.
pub open spec fn member(members: Seq<(Seq<char>, JsonView)>, name: Seq<char>) -> Option<JsonView>
    decreases members.len(),
{
    if members.len() == 0 {
        None
    } else if members.last().0 == name {
        Some(members.last().1)
    } else {
        member(members.drop_last(), name)
    }
}

/// What stands under `name` in a tree: nothing where the tree is no object.
pub open spec fn under(tree: JsonView, name: Seq<char>) -> Option<JsonView> {
    match tree {
        JsonView::Object(members) => member(members, name),
        _ => None,
    }
}

/// A member whose name none behind it bears is what stands under its name.
pub proof fn lemma_member(members: Seq<(Seq<char>, JsonView)>, i: int)
    requires
        0 <= i < members.len(),
        forall|j: int| i < j < members.len() ==> (#[trigger] members[j]).0 != members[i].0,
    ensures
        member(members, members[i].0) == Some(members[i].1),
    decreases members.len(),
{
    if i < members.len() - 1 {
        let before = members.drop_last();
        assert(members.last() == members[members.len() - 1]);
        assert(before[i] == members[i]);
        assert forall|j: int| i < j < before.len() implies (#[trigger] before[j]).0
            != before[i].0 by {
            assert(before[j] == members[j]);
        }
        lemma_member(before, i);
    }
}

/// A name that no member bears has nothing under it.
pub proof fn lemma_no_member(members: Seq<(Seq<char>, JsonView)>, name: Seq<char>)
    requires
        forall|j: int| 0 <= j < members.len() ==> (#[trigger] members[j]).0 != name,
    ensures
        member(members, name) is None,
    decreases members.len(),
{
    if members.len() > 0 {
        let before = members.drop_last();
        assert(members.last() == members[members.len() - 1]);
        assert forall|j: int| 0 <= j < before.len() implies (#[trigger] before[j]).0 != name by {
            assert(before[j] == members[j]);
        }
        lemma_no_member(before, name);
    }
}

/// The tree of an integer is a number that reads as that integer again, and as no other.
pub proof fn law_integers_keep_their_value(n: i64)
    ensures
        integer_tree(n) is Number,
        integer_tree(n)->Number_0.integer() == Some(n),
        !(integer_tree(n)->Number_0 is Float),
        integer_tree(n)->Number_0.finite(),
        optional_integer_tree(Some(n)) == integer_tree(n),
        optional_integer_tree(None) == JsonView::Null,
{
}

/// An integer number reads as itself where sixty-four signed bits hold it, and as no integer
/// otherwise; a double reads as none.
pub proof fn law_numbers_are_read_in_range(natural: u64, negative: i64, double: Double)
    ensures
        JsonNumber::PosInt(natural).integer() is Some <==> natural < 0x8000_0000_0000_0000,
        JsonNumber::PosInt(natural).integer() is Some ==> JsonNumber::PosInt(
            natural,
        ).integer()->0 == natural,
        JsonNumber::NegInt(negative).integer() == Some(negative),
        JsonNumber::Float(double).integer() is None,
        JsonNumber::PosInt(natural).finite() && JsonNumber::NegInt(negative).finite(),
        JsonNumber::Float(double).finite() == double.finite(),
{
}

/// A double is finite exactly when its bits, without the sign, stand below those of infinity.
/// A finite one is shown by its own bits, and any other as null.
pub proof fn law_doubles_are_shown_where_finite(d: Double)
    ensures
        d.finite() <==> d.bits % 0x8000_0000_0000_0000 < 0x7ff0_0000_0000_0000,
        d.finite() ==> double_tree(d) == JsonView::Number(JsonNumber::Float(d)),
        !d.finite() ==> double_tree(d) == JsonView::Null,
{
    let bits = d.bits as int;
    assert((bits / 0x10_0000_0000_0000) % 0x800 == (bits % 0x8000_0000_0000_0000)
        / 0x10_0000_0000_0000) by (nonlinear_arith)
        requires
            0 <= bits < 0x1_0000_0000_0000_0000,
    ;
}

} // verus!
