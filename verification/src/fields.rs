//! The fields of a request: a `serde_json::Map`, what it holds, and the calls that read and
//! fill it.
use crate::json::{Double, Field, FieldView, JsonNumber};
use crate::text::{same_text, text_views};
use vstd::prelude::*;

verus! {

/// `serde_json::Map`, the object type of serde_json.
#[verifier::external_type_specification]
#[verifier::external_body]
#[verifier::reject_recursive_types(K)]
#[verifier::reject_recursive_types(V)]
pub struct ExMap<K, V>(serde_json::Map<K, V>);

/// `serde_json::Value`, the value type of serde_json.
#[verifier::external_type_specification]
#[verifier::external_body]
pub struct ExValue(serde_json::Value);

/// Field names with what stands under them, in the order in which a map is walked.
pub type Entries = Seq<(Seq<char>, FieldView)>;

/// What a map holds, in the order in which it is walked.
pub uninterp spec fn entries_of(map: serde_json::Map<String, serde_json::Value>) -> Seq<
    (Seq<char>, FieldView),
>;

/// What a JSON value holds as an object, in the order in which that is walked; nothing where
/// the value is no object.
pub uninterp spec fn members_of(body: serde_json::Value) -> Option<Seq<(Seq<char>, FieldView)>>;

/// `a` stands before `b` in the order of texts: by the first character in which they differ,
/// a proper prefix first.
pub open spec fn text_less(a: Seq<char>, b: Seq<char>) -> bool
    decreases a.len(),
{
    if b.len() == 0 {
        false
    } else if a.len() == 0 {
        true
    } else if a[0] != b[0] {
        (a[0] as u32) < (b[0] as u32)
    } else {
        text_less(a.skip(1), b.skip(1))
    }
}

/// Each name stands before all that follow it.
pub open spec fn ascending(names: Seq<Seq<char>>) -> bool {
    forall|i: int, j: int|
        #![trigger names[i], names[j]]
        0 <= i < j < names.len() ==> text_less(names[i], names[j])
}

/// The names of the entries.
pub open spec fn names_of(entries: Entries) -> Seq<Seq<char>> {
    entries.map_values(|entry: (Seq<char>, FieldView)| entry.0)
}

/// What stands under `name`.
pub open spec fn lookup(entries: Entries, name: Seq<char>) -> Option<FieldView>
    decreases entries.len(),
{
    if entries.len() == 0 {
        None
    } else if entries[0].0 == name {
        Some(entries[0].1)
    } else {
        lookup(entries.skip(1), name)
    }
}

/// The entries with `value` under `name`: in place of what stood there, or else before the
/// first name that is greater.
pub open spec fn put(entries: Entries, name: Seq<char>, value: FieldView) -> Entries
    decreases entries.len(),
{
    if entries.len() == 0 {
        seq![(name, value)]
    } else if entries[0].0 == name {
        seq![(name, value)] + entries.skip(1)
    } else if text_less(name, entries[0].0) {
        seq![(name, value)] + entries
    } else {
        seq![entries[0]] + put(entries.skip(1), name, value)
    }
}

/// The entries with `value` under `name`, unless something stands there already.
pub open spec fn put_absent(entries: Entries, name: Seq<char>, value: FieldView) -> Entries {
    if lookup(entries, name) is Some {
        entries
    } else {
        put(entries, name, value)
    }
}

/// The views of a list of fields.
pub open spec fn entry_views(entries: Seq<(String, Field)>) -> Entries {
    entries.map_values(|entry: (String, Field)| (entry.0@, entry.1@))
}

/// A value that is put into a map.
pub enum Preset {
    Integer(i64),
    Flag(bool),
    Literal(&'static str),
}

impl View for Preset {
    type V = FieldView;

    open spec fn view(&self) -> FieldView {
        match self {
            Preset::Integer(n) => FieldView::Number(JsonNumber::of_integer(*n)),
            Preset::Flag(b) => FieldView::Bool(*b),
            Preset::Literal(t) => FieldView::Text(t@),
        }
    }
}

/// `serde_json::Value::as_object`, with a clone of what it lends: the map of an object, and
/// nothing for any other value.
#[verifier::external_body]
pub(crate) fn object_members(body: &serde_json::Value) -> (map: Option<
    serde_json::Map<String, serde_json::Value>,
>)
    ensures
        match map {
            Some(map) => members_of(*body) == Some(entries_of(map)),
            None => members_of(*body) is None,
        },
{
    body.as_object().cloned()
}

/// `serde_json::Map::keys`: the names that the map holds, in the order in which it is walked,
/// which is the ascending one (the map is a `BTreeMap`).
#[verifier::external_body]
pub(crate) fn field_names(map: &serde_json::Map<String, serde_json::Value>) -> (names: Vec<String>)
    ensures
        text_views(names@) == names_of(entries_of(*map)),
        ascending(text_views(names@)),
{
    map.keys().cloned().collect()
}

/// `serde_json::Map::get`: what stands under `name`, if anything does.
#[verifier::external_body]
pub(crate) fn field(map: &serde_json::Map<String, serde_json::Value>, name: &str) -> (value: Option<
    Field,
>)
    ensures
        match value {
            Some(value) => lookup(entries_of(*map), name@) == Some(value@),
            None => lookup(entries_of(*map), name@) is None,
        },
{
    map.get(name).map(|value| match value {
        serde_json::Value::Null => Field::Null,
        serde_json::Value::Bool(b) => Field::Bool(*b),
        serde_json::Value::Number(n) => Field::Number(match (n.as_u64(), n.as_i64()) {
            (Some(u), _) => JsonNumber::PosInt(u),
            (None, Some(i)) => JsonNumber::NegInt(i),
            _ => JsonNumber::Float(Double { bits: n.as_f64().unwrap_or_default().to_bits() }),
        }),
        serde_json::Value::String(t) => Field::Text(t.clone()),
        serde_json::Value::Array(_) => Field::Array,
        serde_json::Value::Object(_) => Field::Object,
    })
}

/// `serde_json::Map::insert`: `value` stands under `name`, whatever stood there before.
#[verifier::external_body]
pub(crate) fn put_field(
    map: &mut serde_json::Map<String, serde_json::Value>,
    name: &str,
    value: Preset,
)
    ensures
        entries_of(*final(map)) == put(entries_of(*old(map)), name@, value@),
{
    map.insert(name.to_string(), match value {
        Preset::Integer(n) => serde_json::Value::from(n),
        Preset::Flag(b) => serde_json::Value::from(b),
        Preset::Literal(t) => serde_json::Value::from(t),
    });
}

/// `serde_json::Map::entry` with `or_insert`: `value` stands under `name` unless something
/// stood there before.
#[verifier::external_body]
pub(crate) fn put_absent_field(
    map: &mut serde_json::Map<String, serde_json::Value>,
    name: &str,
    value: Preset,
)
    ensures
        entries_of(*final(map)) == put_absent(entries_of(*old(map)), name@, value@),
{
    map.entry(name).or_insert(match value {
        Preset::Integer(n) => serde_json::Value::from(n),
        Preset::Flag(b) => serde_json::Value::from(b),
        Preset::Literal(t) => serde_json::Value::from(t),
    });
}

/// No text stands before itself.
proof fn lemma_text_less_irreflexive(a: Seq<char>)
    ensures
        !text_less(a, a),
    decreases a.len(),
{
    if a.len() > 0 {
        lemma_text_less_irreflexive(a.skip(1));
    }
}

/// Where no earlier entry has the name of entry `i`, entry `i` is what stands under it.
proof fn lemma_lookup_at(entries: Entries, i: int)
    requires
        0 <= i < entries.len(),
        forall|j: int| 0 <= j < i ==> entries[j].0 != entries[i].0,
    ensures
        lookup(entries, entries[i].0) == Some(entries[i].1),
    decreases i,
{
    if i > 0 {
        let rest = entries.skip(1);
        assert(rest[i - 1] == entries[i]);
        assert forall|j: int| 0 <= j < i - 1 implies #[trigger] rest[j].0 != rest[i - 1].0 by {
            assert(rest[j] == entries[j + 1]);
        }
        lemma_lookup_at(rest, i - 1);
    }
}

/// What stands under a name is the value of some entry.
pub proof fn lemma_lookup_entry(entries: Entries, name: Seq<char>)
    requires
        lookup(entries, name) is Some,
    ensures
        exists|i: int|
            0 <= i < entries.len() && (#[trigger] entries[i]) == (name, lookup(entries, name)->0),
    decreases entries.len(),
{
    if entries[0].0 == name {
        assert(entries[0] == (name, lookup(entries, name)->0));
    } else {
        let rest = entries.skip(1);
        lemma_lookup_entry(rest, name);
        let i = choose|i: int|
            0 <= i < rest.len() && (#[trigger] rest[i]) == (name, lookup(rest, name)->0);
        assert(entries[i + 1] == rest[i]);
    }
}

/// Putting a value under a name changes what stands under that name, and nothing else.
pub proof fn law_put_lookup(entries: Entries, name: Seq<char>, value: FieldView, other: Seq<char>)
    ensures
        lookup(put(entries, name, value), other) == if other == name {
            Some(value)
        } else {
            lookup(entries, other)
        },
    decreases entries.len(),
{
    let after = put(entries, name, value);
    if entries.len() == 0 {
        assert(after.skip(1) =~= entries);
    } else if entries[0].0 == name {
        assert(after.skip(1) =~= entries.skip(1));
    } else if text_less(name, entries[0].0) {
        assert(after.skip(1) =~= entries);
    } else {
        law_put_lookup(entries.skip(1), name, value, other);
        assert(after.skip(1) =~= put(entries.skip(1), name, value));
    }
}

/// All fields of a map, in the order in which it is walked.
pub fn fields(map: &serde_json::Map<String, serde_json::Value>) -> (entries: Vec<(String, Field)>)
    ensures
        entry_views(entries@) == entries_of(*map),
{
    let names = field_names(map);
    let ghost held = entries_of(*map);
    let mut entries: Vec<(String, Field)> = Vec::new();
    let mut i: usize = 0;
    proof {
        assert(text_views(names@).len() == held.len());
    }
    while i < names.len()
        invariant
            i <= names@.len(),
            names@.len() == held.len(),
            held == entries_of(*map),
            text_views(names@) == names_of(held),
            ascending(text_views(names@)),
            entry_views(entries@) == held.take(i as int),
        decreases names@.len() - i,
    {
        proof {
            assert(text_views(names@)[i as int] == held[i as int].0);
            assert forall|j: int| 0 <= j < i implies held[j].0 != held[i as int].0 by {
                assert(text_views(names@)[j] == held[j].0);
                lemma_text_less_irreflexive(held[j].0);
            }
            lemma_lookup_at(held, i as int);
        }
        let ghost before = entries@;
        match field(map, names[i].as_str()) {
            Some(value) => {
                entries.push((names[i].clone(), value));
                assert(entry_views(entries@) =~= entry_views(before).push(
                    (names@[i as int]@, value@),
                ));
                assert(held.take(i + 1) =~= held.take(i as int).push(held[i as int]));
            },
            None => {
                assert(false);
            },
        }
        i = i + 1;
    }
    assert(held.take(held.len() as int) =~= held);
    entries
}

/// What stands under `name` in a list of fields.
pub fn find<'a>(entries: &'a Vec<(String, Field)>, name: &str) -> (value: Option<&'a Field>)
    ensures
        match value {
            Some(value) => lookup(entry_views(entries@), name@) == Some(value@),
            None => lookup(entry_views(entries@), name@) is None,
        },
{
    let ghost views = entry_views(entries@);
    let mut i: usize = 0;
    assert(views.skip(0) =~= views);
    while i < entries.len()
        invariant
            i <= entries@.len(),
            views == entry_views(entries@),
            lookup(views, name@) == lookup(views.skip(i as int), name@),
        decreases entries@.len() - i,
    {
        assert(views.skip(i as int)[0] == views[i as int]);
        if same_text(entries[i].0.as_str(), name) {
            return Some(&entries[i].1);
        }
        assert(views.skip(i as int).skip(1) =~= views.skip(i + 1));
        i = i + 1;
    }
    None
}

/// What is put where nothing stands stands there afterwards; where something stands, nothing
/// changes at all.
pub proof fn law_put_absent_never_overwrites(
    entries: Entries,
    name: Seq<char>,
    value: FieldView,
    other: Seq<char>,
)
    ensures
        lookup(entries, name) is Some ==> put_absent(entries, name, value) == entries,
        lookup(entries, name) is None ==> lookup(put_absent(entries, name, value), name) == Some(
            value,
        ),
        other != name ==> lookup(put_absent(entries, name, value), other) == lookup(entries, other),
{
    law_put_lookup(entries, name, value, other);
    law_put_lookup(entries, name, value, name);
}

/// Two characters that differ have codes that differ.
proof fn lemma_codes_differ(a: char, b: char)
    ensures
        a != b ==> (a as u32) != (b as u32),
{
}

/// Of two texts that differ one stands before the other, and not the other before the one; and
/// what stands before a text stands before all that it stands before.
pub proof fn law_texts_are_ordered(a: Seq<char>, b: Seq<char>, c: Seq<char>)
    ensures
        a != b ==> (text_less(a, b) <==> !text_less(b, a)),
        !text_less(a, a),
        text_less(a, b) && text_less(b, c) ==> text_less(a, c),
        a.len() < b.len() && a.is_prefix_of(b) ==> text_less(a, b),
    decreases a.len(),
{
    lemma_text_less_irreflexive(a);
    if a.len() > 0 && b.len() > 0 {
        let rest = if c.len() > 0 {
            c.skip(1)
        } else {
            c
        };
        law_texts_are_ordered(a.skip(1), b.skip(1), rest);
        if a[0] == b[0] && a.skip(1) == b.skip(1) {
            assert(a =~= seq![a[0]] + a.skip(1));
            assert(b =~= seq![b[0]] + b.skip(1));
        }
        lemma_codes_differ(a[0], b[0]);
        if a.len() < b.len() && a.is_prefix_of(b) {
            assert(a[0] == b.take(a.len() as int)[0]);
            assert(a.skip(1) =~= b.skip(1).take(a.len() - 1)) by {
                assert forall|i: int| 0 <= i < a.len() - 1 implies a.skip(1)[i] == b.skip(1)[i] by {
                    assert(a[i + 1] == b.take(a.len() as int)[i + 1]);
                }
            }
        }
    } else if a.len() == 0 && b.len() == 0 {
        assert(a =~= b);
    }
}

/// Putting a value keeps the names in order, each once.
pub proof fn law_put_keeps_the_order(entries: Entries, name: Seq<char>, value: FieldView)
    requires
        ascending(names_of(entries)),
    ensures
        ascending(names_of(put(entries, name, value))),
        lookup(entries, name) is Some ==> names_of(put(entries, name, value)) == names_of(entries),
    decreases entries.len(),
{
    let after = put(entries, name, value);
    let names = names_of(entries);
    if entries.len() == 0 {
    } else if entries[0].0 == name {
        assert(names_of(after) =~= names);
    } else if text_less(name, entries[0].0) {
        assert(names_of(after) =~= seq![name] + names);
        assert forall|i: int, j: int|
            #![trigger names_of(after)[i], names_of(after)[j]]
            0 <= i < j < names_of(after).len() implies text_less(
            names_of(after)[i],
            names_of(after)[j],
        ) by {
            assert(names[0] == entries[0].0);
            if i == 0 {
                if j > 1 {
                    assert(text_less(names[0], names[j - 1]));
                    law_texts_are_ordered(name, names[0], names[j - 1]);
                }
            } else {
                assert(text_less(names[i - 1], names[j - 1]));
            }
        }
        if lookup(entries, name) is Some {
            lemma_lookup_entry(entries, name);
            let k = choose|k: int|
                0 <= k < entries.len() && (#[trigger] entries[k]) == (name, lookup(entries, name)->0);
            assert(names[k] == name && names[0] == entries[0].0);
            if k > 0 {
                assert(text_less(names[0], names[k]));
            }
            law_texts_are_ordered(name, names[0], name);
        }
    } else {
        let rest = entries.skip(1);
        let later = put(rest, name, value);
        assert(names_of(rest) =~= names.skip(1));
        assert(ascending(names_of(rest))) by {
            assert forall|i: int, j: int|
                #![trigger names_of(rest)[i], names_of(rest)[j]]
                0 <= i < j < names_of(rest).len() implies text_less(
                names_of(rest)[i],
                names_of(rest)[j],
            ) by {
                assert(text_less(names[i + 1], names[j + 1]));
            }
        }
        law_put_keeps_the_order(rest, name, value);
        lemma_put_names(rest, name, value);
        assert(names_of(after) =~= seq![names[0]] + names_of(later));
        law_texts_are_ordered(name, names[0], name);
        assert forall|i: int, j: int|
            #![trigger names_of(after)[i], names_of(after)[j]]
            0 <= i < j < names_of(after).len() implies text_less(
            names_of(after)[i],
            names_of(after)[j],
        ) by {
            if i == 0 {
                let behind = names_of(later)[j - 1];
                assert(names_of(later).contains(behind));
                if behind != name {
                    let k = choose|k: int| 0 <= k < names_of(rest).len() && names_of(rest)[k]
                        == behind;
                    assert(names[k + 1] == behind);
                    assert(text_less(names[0], names[k + 1]));
                }
            } else {
                assert(text_less(names_of(later)[i - 1], names_of(later)[j - 1]));
            }
        }
        assert(names =~= seq![names[0]] + names_of(rest));
    }
}

/// The names after a value was put are those before, and the one that it was put under.
proof fn lemma_put_names(entries: Entries, name: Seq<char>, value: FieldView)
    ensures
        forall|other: Seq<char>| #[trigger]
            names_of(put(entries, name, value)).contains(other) ==> other == name || names_of(
                entries,
            ).contains(other),
    decreases entries.len(),
{
    let after = put(entries, name, value);
    let names = names_of(entries);
    if entries.len() > 0 && entries[0].0 != name && !text_less(name, entries[0].0) {
        lemma_put_names(entries.skip(1), name, value);
    }
    assert forall|other: Seq<char>| #[trigger] names_of(after).contains(other) implies other == name
        || names.contains(other) by {
        let i = choose|i: int| 0 <= i < names_of(after).len() && names_of(after)[i] == other;
        assert(after[i].0 == other);
        if entries.len() == 0 {
        } else if entries[0].0 == name {
            if i > 0 {
                assert(after[i] == entries[i]);
                assert(names[i] == other);
            }
        } else if text_less(name, entries[0].0) {
            if i > 0 {
                assert(after[i] == entries[i - 1]);
                assert(names[i - 1] == other);
            }
        } else {
            let rest = entries.skip(1);
            if i == 0 {
                assert(names[0] == other);
            } else {
                let later = put(rest, name, value);
                assert(after[i] == later[i - 1]);
                assert(names_of(later)[i - 1] == other);
                assert(names_of(later).contains(other));
                if other != name {
                    let k = choose|k: int| 0 <= k < names_of(rest).len() && names_of(rest)[k]
                        == other;
                    assert(names[k + 1] == other);
                }
            }
        }
    }
}

} // verus!
