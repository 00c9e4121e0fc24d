//! The rules that a request's fields have to meet before a record is written.
use crate::alert::{law_each_operator_has_its_reading, violating, Reading};
use crate::fields::{entries_of, entry_views, fields, find, lookup, Entries};
use crate::json::{Field, FieldView};
use crate::resource::{has_field, Resource, ResourceView};
use crate::text::{begins_with, same_text};
use vstd::prelude::*;

verus! {

/// The message of a refusal; nothing where the request is accepted.
pub open spec fn refusal(result: Result<(), &'static str>) -> Option<Seq<char>> {
    match result {
        Ok(_) => None,
        Err(message) => Some(message@),
    }
}

/// The message of a complaint, if there is one.
pub open spec fn optional_literal(message: Option<&'static str>) -> Option<Seq<char>> {
    match message {
        Some(m) => Some(m@),
        None => None,
    }
}

/// Some field is no column of the resource.
pub open spec fn has_unknown(resource: ResourceView, entries: Entries) -> bool {
    exists|i: int| 0 <= i < entries.len() && !resource.fields.contains((#[trigger] entries[i]).0)
}

/// Some required field is absent or null.
pub open spec fn lacks_required(resource: ResourceView, entries: Entries) -> bool {
    exists|i: int|
        0 <= i < resource.required.len() && (lookup(entries, #[trigger] resource.required[i])
            is None || lookup(entries, resource.required[i]) == Some(FieldView::Null))
}

/// Some required field is null.
pub open spec fn nulls_required(resource: ResourceView, entries: Entries) -> bool {
    exists|i: int|
        0 <= i < resource.required.len() && lookup(entries, #[trigger] resource.required[i])
            == Some(FieldView::Null)
}

/// Some field holds an array or an object.
pub open spec fn has_nested(entries: Entries) -> bool {
    exists|i: int| 0 <= i < entries.len() && !(#[trigger] entries[i]).1.scalar()
}

/// The field names whose values are positive integers.
pub open spec fn positive_name(name: Seq<char>) -> bool {
    name == "host_id"@ || name == "application_id"@ || name == "channel_id"@ || name
        == "duration_secs"@
}

/// The field names whose values are points in time.
pub open spec fn time_name(name: Seq<char>) -> bool {
    name == "created_at"@ || name == "updated_at"@ || name == "ts"@
}

/// The field names whose values are measured.
pub open spec fn measure_name(name: Seq<char>) -> bool {
    name == "value"@ || name == "threshold"@
}

/// What is wrong with the type of the value under `name`. Null is never wrong here.
pub open spec fn type_complaint(name: Seq<char>, value: FieldView) -> Option<Seq<char>> {
    if value is Null {
        None
    } else if name == "enabled"@ {
        if value is Bool || value.integer() == Some(0i64) || value.integer() == Some(1i64) {
            None
        } else {
            Some("enabled must be a boolean"@)
        }
    } else if positive_name(name) {
        if value.integer() is Some && value.integer()->0 > 0 {
            None
        } else {
            Some("IDs and durations must be positive integers"@)
        }
    } else if time_name(name) {
        if value.integer() is Some {
            None
        } else {
            Some("timestamps must be integers"@)
        }
    } else if measure_name(name) {
        if value is Number && value->Number_0.finite() {
            None
        } else {
            Some("metric values and thresholds must be finite numbers"@)
        }
    } else if value is Text {
        None
    } else {
        Some("text fields must contain strings"@)
    }
}

/// The complaint about the first field whose value has the wrong type.
pub open spec fn first_type_complaint(entries: Entries) -> Option<Seq<char>>
    decreases entries.len(),
{
    if entries.len() == 0 {
        None
    } else if type_complaint(entries[0].0, entries[0].1) is Some {
        type_complaint(entries[0].0, entries[0].1)
    } else {
        first_type_complaint(entries.skip(1))
    }
}

/// A comparison that alert rules know.
pub open spec fn known_operator(operator: Seq<char>) -> bool {
    operator == "gt"@ || operator == "lt"@ || operator == "eq"@
}

/// A transport that channels know.
pub open spec fn known_kind(kind: Seq<char>) -> bool {
    kind == "webhook"@ || kind == "pi-bun"@
}

/// An HTTP or HTTPS URL, by its first characters.
pub open spec fn web_url(endpoint: Seq<char>) -> bool {
    "http://"@.is_prefix_of(endpoint) || "https://"@.is_prefix_of(endpoint)
}

/// Why a request with these fields is refused; nothing where it is accepted. The first
/// reason in this order counts.
pub open spec fn field_verdict(resource: ResourceView, entries: Entries, create: bool) -> Option<
    Seq<char>,
> {
    if has_unknown(resource, entries) {
        Some("request contains an unknown field"@)
    } else if create && lacks_required(resource, entries) {
        Some("request is missing a required field"@)
    } else if nulls_required(resource, entries) {
        Some("required fields cannot be null"@)
    } else if has_nested(entries) {
        Some("field values must be scalar"@)
    } else if first_type_complaint(entries) is Some {
        first_type_complaint(entries)
    } else if lookup(entries, "operator"@) matches Some(FieldView::Text(operator))
        && !known_operator(operator) {
        Some("operator must be gt, lt, or eq"@)
    } else if resource.name == "channels"@ && (lookup(entries, "kind"@) matches Some(
        FieldView::Text(kind),
    ) && !known_kind(kind)) {
        Some("channel kind must be webhook or pi-bun"@)
    } else if lookup(entries, "endpoint"@) matches Some(FieldView::Text(endpoint)) && !web_url(
        endpoint,
    ) {
        Some("endpoint must be an HTTP or HTTPS URL"@)
    } else {
        None
    }
}

fn any_unknown(resource: &Resource, entries: &Vec<(String, Field)>) -> (any: bool)
    ensures
        any == has_unknown(resource@, entry_views(entries@)),
{
    let ghost views = entry_views(entries@);
    let mut i: usize = 0;
    while i < entries.len()
        invariant
            i <= entries@.len(),
            views == entry_views(entries@),
            forall|j: int| 0 <= j < i ==> resource@.fields.contains((#[trigger] views[j]).0),
        decreases entries@.len() - i,
    {
        if !has_field(resource, entries[i].0.as_str()) {
            assert(!resource@.fields.contains(views[i as int].0));
            return true;
        }
        i = i + 1;
    }
    false
}

fn any_required_missing(resource: &Resource, entries: &Vec<(String, Field)>) -> (any: bool)
    ensures
        any == lacks_required(resource@, entry_views(entries@)),
{
    let ghost views = entry_views(entries@);
    let mut i: usize = 0;
    while i < resource.required.len()
        invariant
            i <= resource.required@.len(),
            views == entry_views(entries@),
            forall|j: int|
                0 <= j < i ==> lookup(views, #[trigger] resource@.required[j]) is Some && lookup(
                    views,
                    resource@.required[j],
                ) != Some(FieldView::Null),
        decreases resource.required@.len() - i,
    {
        assert(resource@.required[i as int] == resource.required@[i as int]@);
        match find(entries, resource.required[i]) {
            Some(value) => {
                if value.is_null() {
                    return true;
                }
            },
            None => {
                return true;
            },
        }
        i = i + 1;
    }
    false
}

fn any_required_null(resource: &Resource, entries: &Vec<(String, Field)>) -> (any: bool)
    ensures
        any == nulls_required(resource@, entry_views(entries@)),
{
    let ghost views = entry_views(entries@);
    let mut i: usize = 0;
    while i < resource.required.len()
        invariant
            i <= resource.required@.len(),
            views == entry_views(entries@),
            forall|j: int|
                0 <= j < i ==> lookup(views, #[trigger] resource@.required[j]) != Some(
                    FieldView::Null,
                ),
        decreases resource.required@.len() - i,
    {
        assert(resource@.required[i as int] == resource.required@[i as int]@);
        if let Some(value) = find(entries, resource.required[i]) {
            if value.is_null() {
                return true;
            }
        }
        i = i + 1;
    }
    false
}

fn any_nested(entries: &Vec<(String, Field)>) -> (any: bool)
    ensures
        any == has_nested(entry_views(entries@)),
{
    let ghost views = entry_views(entries@);
    let mut i: usize = 0;
    while i < entries.len()
        invariant
            i <= entries@.len(),
            views == entry_views(entries@),
            forall|j: int| 0 <= j < i ==> (#[trigger] views[j]).1.scalar(),
        decreases entries@.len() - i,
    {
        if !entries[i].1.is_scalar() {
            assert(!views[i as int].1.scalar());
            return true;
        }
        i = i + 1;
    }
    false
}

/// What is wrong with the type of the value under `name`.
pub fn check_type(name: &str, value: &Field) -> (complaint: Option<&'static str>)
    ensures
        optional_literal(complaint) == type_complaint(name@, value@),
{
    if value.is_null() {
        return None;
    }
    if same_text(name, "enabled") {
        let flag = match value {
            Field::Bool(_) => true,
            _ => match value.as_i64() {
                Some(n) => n == 0 || n == 1,
                None => false,
            },
        };
        return if flag {
            None
        } else {
            Some("enabled must be a boolean")
        };
    }
    if same_text(name, "host_id") || same_text(name, "application_id") || same_text(
        name,
        "channel_id",
    ) || same_text(name, "duration_secs") {
        let positive = match value.as_i64() {
            Some(n) => n > 0,
            None => false,
        };
        return if positive {
            None
        } else {
            Some("IDs and durations must be positive integers")
        };
    }
    if same_text(name, "created_at") || same_text(name, "updated_at") || same_text(name, "ts") {
        return if value.as_i64().is_some() {
            None
        } else {
            Some("timestamps must be integers")
        };
    }
    if same_text(name, "value") || same_text(name, "threshold") {
        let finite = match value {
            Field::Number(n) => n.is_finite(),
            _ => false,
        };
        return if finite {
            None
        } else {
            Some("metric values and thresholds must be finite numbers")
        };
    }
    match value {
        Field::Text(_) => None,
        _ => Some("text fields must contain strings"),
    }
}

fn check_types(entries: &Vec<(String, Field)>) -> (complaint: Option<&'static str>)
    ensures
        optional_literal(complaint) == first_type_complaint(entry_views(entries@)),
{
    let ghost views = entry_views(entries@);
    let mut i: usize = 0;
    assert(views.skip(0) =~= views);
    while i < entries.len()
        invariant
            i <= entries@.len(),
            views == entry_views(entries@),
            first_type_complaint(views) == first_type_complaint(views.skip(i as int)),
        decreases entries@.len() - i,
    {
        assert(views.skip(i as int)[0] == views[i as int]);
        let complaint = check_type(entries[i].0.as_str(), &entries[i].1);
        if complaint.is_some() {
            return complaint;
        }
        assert(views.skip(i as int).skip(1) =~= views.skip(i + 1));
        i = i + 1;
    }
    None
}

/// Holds a list of fields to the rules of the resource.
pub fn validate_entries(resource: &Resource, entries: &Vec<(String, Field)>, create: bool) -> (result:
    Result<(), &'static str>)
    ensures
        refusal(result) == field_verdict(resource@, entry_views(entries@), create),
{
    if any_unknown(resource, entries) {
        return Err("request contains an unknown field");
    }
    if create && any_required_missing(resource, entries) {
        return Err("request is missing a required field");
    }
    if any_required_null(resource, entries) {
        return Err("required fields cannot be null");
    }
    if any_nested(entries) {
        return Err("field values must be scalar");
    }
    if let Some(complaint) = check_types(entries) {
        return Err(complaint);
    }
    if let Some(Field::Text(operator)) = find(entries, "operator") {
        if !(same_text(operator.as_str(), "gt") || same_text(operator.as_str(), "lt") || same_text(
            operator.as_str(),
            "eq",
        )) {
            return Err("operator must be gt, lt, or eq");
        }
    }
    if let Some(Field::Text(kind)) = find(entries, "kind") {
        if same_text(resource.name, "channels") && !(same_text(kind.as_str(), "webhook")
            || same_text(kind.as_str(), "pi-bun")) {
            return Err("channel kind must be webhook or pi-bun");
        }
    }
    if let Some(Field::Text(endpoint)) = find(entries, "endpoint") {
        if !begins_with(endpoint.as_str(), "http://") && !begins_with(
            endpoint.as_str(),
            "https://",
        ) {
            return Err("endpoint must be an HTTP or HTTPS URL");
        }
    }
    Ok(())
}

/// Holds the fields of a request to the rules of the resource.
pub fn validate(
    resource: &Resource,
    request: &serde_json::Map<String, serde_json::Value>,
    create: bool,
) -> (result: Result<(), &'static str>)
    ensures
        refusal(result) == field_verdict(resource@, entries_of(*request), create),
{
    let entries = fields(request);
    validate_entries(resource, &entries, create)
}

/// A request that is accepted names columns only, with scalars of the right type. A new record
/// has every required field, and no required field is null. An alert rule compares by one of
/// the three operators, a channel is of one of the two kinds, and an endpoint is a web URL.
pub proof fn law_accepted_requests_keep_the_rules(
    resource: ResourceView,
    entries: Entries,
    create: bool,
)
    requires
        field_verdict(resource, entries, create) is None,
    ensures
        forall|i: int|
            0 <= i < entries.len() ==> {
                let entry = #[trigger] entries[i];
                &&& resource.fields.contains(entry.0)
                &&& entry.1.scalar()
                &&& type_complaint(entry.0, entry.1) is None
            },
        forall|i: int|
            0 <= i < resource.required.len() ==> {
                let value = lookup(entries, #[trigger] resource.required[i]);
                &&& value != Some(FieldView::Null)
                &&& create ==> value is Some
            },
        lookup(entries, "operator"@) matches Some(FieldView::Text(operator)) ==> known_operator(
            operator,
        ),
        resource.name == "channels"@ ==> (lookup(entries, "kind"@) matches Some(
            FieldView::Text(kind),
        ) ==> known_kind(kind)),
        lookup(entries, "endpoint"@) matches Some(FieldView::Text(endpoint)) ==> web_url(endpoint),
{
    assert forall|i: int| 0 <= i < entries.len() implies type_complaint(
        (#[trigger] entries[i]).0,
        entries[i].1,
    ) is None by {
        lemma_no_type_complaint(entries, i);
    }
}

proof fn lemma_no_type_complaint(entries: Entries, i: int)
    requires
        first_type_complaint(entries) is None,
        0 <= i < entries.len(),
    ensures
        type_complaint(entries[i].0, entries[i].1) is None,
    decreases entries.len(),
{
    if i > 0 {
        lemma_no_type_complaint(entries.skip(1), i - 1);
        assert(entries.skip(1)[i - 1] == entries[i]);
    }
}

/// The type of a value is right exactly where its field's name says so: a flag is a boolean, zero
/// or one; an id or a duration is a positive integer; a time is an integer; a measure is a finite
/// number; and any other field is a text. Null is right everywhere.
pub proof fn law_each_field_has_its_type(name: Seq<char>, value: FieldView)
    ensures
        value is Null ==> type_complaint(name, value) is None,
        !(value is Null) && name == "enabled"@ ==> (type_complaint(name, value) is None <==> {
            ||| value is Bool
            ||| value.integer() == Some(0i64)
            ||| value.integer() == Some(1i64)
        }),
        !(value is Null) && (name == "host_id"@ || name == "application_id"@ || name
            == "channel_id"@ || name == "duration_secs"@) ==> (type_complaint(name, value) is None
            <==> value.integer() is Some && value.integer()->0 >= 1),
        !(value is Null) && (name == "created_at"@ || name == "updated_at"@ || name == "ts"@) ==> (
        type_complaint(name, value) is None <==> value.integer() is Some),
        !(value is Null) && (name == "value"@ || name == "threshold"@) ==> (type_complaint(
            name,
            value,
        ) is None <==> value is Number && value->Number_0.finite()),
        !(value is Null) && name != "enabled"@ && name != "host_id"@ && name != "application_id"@
            && name != "channel_id"@ && name != "duration_secs"@ && name != "created_at"@ && name
            != "updated_at"@ && name != "ts"@ && name != "value"@ && name != "threshold"@ ==> (
        type_complaint(name, value) is None <==> value is Text),
{
    reveal_strlit("enabled");
    reveal_strlit("host_id");
    reveal_strlit("application_id");
    reveal_strlit("channel_id");
    reveal_strlit("duration_secs");
    reveal_strlit("created_at");
    reveal_strlit("updated_at");
    reveal_strlit("ts");
    reveal_strlit("value");
    reveal_strlit("threshold");
    assert("enabled"@.len() == 7);
    assert("host_id"@.len() == 7);
    assert("application_id"@.len() == 14);
    assert("channel_id"@.len() == 10);
    assert("duration_secs"@.len() == 13);
    assert("created_at"@.len() == 10);
    assert("updated_at"@.len() == 10);
    assert("ts"@.len() == 2);
    assert("value"@.len() == 5);
    assert("threshold"@.len() == 9);
    assert("enabled"@[0] != "host_id"@[0]);
    assert("channel_id"@[1] != "created_at"@[1]);
    assert("channel_id"@[0] != "updated_at"@[0]);
    assert("created_at"@[0] != "updated_at"@[0]);
}

/// What is said of a value of the wrong type goes by its field's name.
pub proof fn law_wrong_types_are_named(name: Seq<char>, value: FieldView)
    requires
        type_complaint(name, value) is Some,
    ensures
        type_complaint(name, value)->0 == if name == "enabled"@ {
            "enabled must be a boolean"@
        } else if name == "host_id"@ || name == "application_id"@ || name == "channel_id"@ || name
            == "duration_secs"@ {
            "IDs and durations must be positive integers"@
        } else if name == "created_at"@ || name == "updated_at"@ || name == "ts"@ {
            "timestamps must be integers"@
        } else if name == "value"@ || name == "threshold"@ {
            "metric values and thresholds must be finite numbers"@
        } else {
            "text fields must contain strings"@
        },
{
    reveal_strlit("enabled");
    reveal_strlit("host_id");
    reveal_strlit("application_id");
    reveal_strlit("channel_id");
    reveal_strlit("duration_secs");
    reveal_strlit("created_at");
    reveal_strlit("updated_at");
    reveal_strlit("ts");
    reveal_strlit("value");
    reveal_strlit("threshold");
    assert("enabled"@.len() == 7);
    assert("host_id"@.len() == 7);
    assert("application_id"@.len() == 14);
    assert("channel_id"@.len() == 10);
    assert("duration_secs"@.len() == 13);
    assert("created_at"@.len() == 10);
    assert("updated_at"@.len() == 10);
    assert("ts"@.len() == 2);
    assert("value"@.len() == 5);
    assert("threshold"@.len() == 9);
    assert("enabled"@[0] != "host_id"@[0]);
    assert("channel_id"@[1] != "created_at"@[1]);
    assert("channel_id"@[0] != "updated_at"@[0]);
    assert("created_at"@[0] != "updated_at"@[0]);
}

/// The fields keep every rule but the one on operators: they are columns with scalars of the
/// right type, the required ones are there where a record is added and never null, a channel's
/// kind is `webhook` or `pi-bun`, and an endpoint begins with `http://` or `https://`.
pub open spec fn otherwise_right(resource: ResourceView, entries: Entries, create: bool) -> bool {
    &&& forall|i: int|
        0 <= i < entries.len() ==> {
            let entry = #[trigger] entries[i];
            resource.fields.contains(entry.0) && !(entry.1 is Array) && !(entry.1 is Object)
                && type_complaint(entry.0, entry.1) is None
        }
    &&& forall|i: int|
        0 <= i < resource.required.len() ==> {
            let value = lookup(entries, #[trigger] resource.required[i]);
            value != Some(FieldView::Null) && (create ==> value is Some)
        }
    &&& resource.name == "channels"@ ==> (lookup(entries, "kind"@) matches Some(
        FieldView::Text(kind),
    ) ==> kind == "webhook"@ || kind == "pi-bun"@)
    &&& lookup(entries, "endpoint"@) matches Some(FieldView::Text(endpoint)) ==> "http://"@
        .is_prefix_of(endpoint) || "https://"@.is_prefix_of(endpoint)
}

/// A request is accepted exactly when it keeps every rule and the operator that it gives, if it
/// gives one, is `gt`, `lt` or `eq`: nothing that keeps the rules is refused.
pub proof fn law_acceptance_is_complete(resource: ResourceView, entries: Entries, create: bool)
    ensures
        field_verdict(resource, entries, create) is None <==> {
            &&& otherwise_right(resource, entries, create)
            &&& lookup(entries, "operator"@) matches Some(FieldView::Text(operator)) ==> operator
                == "gt"@ || operator == "lt"@ || operator == "eq"@
        },
{
    if field_verdict(resource, entries, create) is None {
        law_accepted_requests_keep_the_rules(resource, entries, create);
    } else if otherwise_right(resource, entries, create) {
        assert(!has_unknown(resource, entries));
        assert(!(create && lacks_required(resource, entries)));
        assert(!nulls_required(resource, entries));
        assert(!has_nested(entries));
        lemma_all_typed(entries);
    }
}

proof fn lemma_all_typed(entries: Entries)
    requires
        forall|i: int|
            0 <= i < entries.len() ==> type_complaint((#[trigger] entries[i]).0, entries[i].1)
                is None,
    ensures
        first_type_complaint(entries) is None,
    decreases entries.len(),
{
    if entries.len() > 0 {
        let rest = entries.skip(1);
        assert(type_complaint(entries[0].0, entries[0].1) is None);
        assert forall|i: int| 0 <= i < rest.len() implies type_complaint(
            (#[trigger] rest[i]).0,
            rest[i].1,
        ) is None by {
            assert(rest[i] == entries[i + 1]);
        }
        lemma_all_typed(rest);
    }
}

/// The operators that a rule may have are exactly those by which some reading violates a rule:
/// every rule that can be written can raise an alert, and every comparison can be written.
pub proof fn law_accepted_operators_are_those_that_can_be_violated(operator: Seq<char>)
    ensures
        known_operator(operator) <==> exists|reading: Reading| #[trigger]
            violating(operator, reading),
        known_operator(operator) <==> operator == "gt"@ || operator == "lt"@ || operator == "eq"@,
{
    let all = Reading { above: true, below: true, near: true };
    law_each_operator_has_its_reading(operator, all);
    if exists|reading: Reading| #[trigger] violating(operator, reading) {
        let reading = choose|reading: Reading| #[trigger] violating(operator, reading);
        law_each_operator_has_its_reading(operator, reading);
    }
    if known_operator(operator) {
        assert(violating(operator, all));
    }
}

/// Why a request is refused: an unknown field comes before a missing one, that before a null,
/// that before a nested value, that before a wrong type, and those before the operator, the kind
/// and the endpoint.
pub proof fn law_refusals_come_in_order(
    resource: ResourceView,
    entries: Entries,
    create: bool,
    i: int,
)
    ensures
        ({
            let verdict = field_verdict(resource, entries, create);
            let required = resource.required;
            &&& 0 <= i < entries.len() && !resource.fields.contains(entries[i].0) ==> verdict
                == Some("request contains an unknown field"@)
            &&& verdict == Some("request contains an unknown field"@) ==> exists|j: int|
                0 <= j < entries.len() && !resource.fields.contains((#[trigger] entries[j]).0)
            &&& create && 0 <= i < required.len() && (lookup(entries, required[i]) is None
                || lookup(entries, required[i]) == Some(FieldView::Null)) ==> verdict == Some(
                "request contains an unknown field"@,
            ) || verdict == Some("request is missing a required field"@)
            &&& verdict == Some("request is missing a required field"@) ==> create && exists|j: int|
                0 <= j < required.len() && (lookup(entries, #[trigger] required[j]) is None
                    || lookup(entries, required[j]) == Some(FieldView::Null))
            &&& verdict == Some("required fields cannot be null"@) ==> !create && exists|j: int|
                0 <= j < required.len() && lookup(entries, #[trigger] required[j]) == Some(
                    FieldView::Null,
                )
            &&& !create && 0 <= i < required.len() && lookup(entries, required[i]) == Some(
                FieldView::Null,
            ) ==> verdict == Some("request contains an unknown field"@) || verdict == Some(
                "required fields cannot be null"@,
            )
            &&& verdict == Some("field values must be scalar"@) ==> exists|j: int|
                0 <= j < entries.len() && ((#[trigger] entries[j]).1 is Array || entries[j].1
                    is Object)
            &&& verdict == Some("operator must be gt, lt, or eq"@) ==> (lookup(entries, "operator"@)
                matches Some(FieldView::Text(operator)) && operator != "gt"@ && operator != "lt"@
                && operator != "eq"@)
            &&& verdict == Some("channel kind must be webhook or pi-bun"@) ==> resource.name
                == "channels"@ && (lookup(entries, "kind"@) matches Some(FieldView::Text(kind))
                && kind != "webhook"@ && kind != "pi-bun"@)
            &&& verdict == Some("endpoint must be an HTTP or HTTPS URL"@) ==> (lookup(
                entries,
                "endpoint"@,
            ) matches Some(FieldView::Text(endpoint)) && !"http://"@.is_prefix_of(endpoint)
                && !"https://"@.is_prefix_of(endpoint))
        }),
{
    lemma_messages_differ();
    lemma_complaint_messages(entries);
}

/// The complaint about a type is one of five.
proof fn lemma_complaint_messages(entries: Entries)
    ensures
        first_type_complaint(entries) matches Some(message) ==> {
            ||| message == "enabled must be a boolean"@
            ||| message == "IDs and durations must be positive integers"@
            ||| message == "timestamps must be integers"@
            ||| message == "metric values and thresholds must be finite numbers"@
            ||| message == "text fields must contain strings"@
        },
    decreases entries.len(),
{
    if entries.len() > 0 {
        lemma_complaint_messages(entries.skip(1));
    }
}

/// No two of the refusals say the same.
proof fn lemma_messages_differ()
    ensures
        "request contains an unknown field"@ != "request is missing a required field"@,
        "request contains an unknown field"@ != "required fields cannot be null"@,
        "request contains an unknown field"@ != "field values must be scalar"@,
        "request contains an unknown field"@ != "enabled must be a boolean"@,
        "request contains an unknown field"@ != "IDs and durations must be positive integers"@,
        "request contains an unknown field"@ != "timestamps must be integers"@,
        "request contains an unknown field"@ != "metric values and thresholds must be finite numbers"@,
        "request contains an unknown field"@ != "text fields must contain strings"@,
        "request contains an unknown field"@ != "operator must be gt, lt, or eq"@,
        "request contains an unknown field"@ != "channel kind must be webhook or pi-bun"@,
        "request contains an unknown field"@ != "endpoint must be an HTTP or HTTPS URL"@,
        "request is missing a required field"@ != "required fields cannot be null"@,
        "request is missing a required field"@ != "field values must be scalar"@,
        "request is missing a required field"@ != "enabled must be a boolean"@,
        "request is missing a required field"@ != "IDs and durations must be positive integers"@,
        "request is missing a required field"@ != "timestamps must be integers"@,
        "request is missing a required field"@ != "metric values and thresholds must be finite numbers"@,
        "request is missing a required field"@ != "text fields must contain strings"@,
        "request is missing a required field"@ != "operator must be gt, lt, or eq"@,
        "request is missing a required field"@ != "channel kind must be webhook or pi-bun"@,
        "request is missing a required field"@ != "endpoint must be an HTTP or HTTPS URL"@,
        "required fields cannot be null"@ != "field values must be scalar"@,
        "required fields cannot be null"@ != "enabled must be a boolean"@,
        "required fields cannot be null"@ != "IDs and durations must be positive integers"@,
        "required fields cannot be null"@ != "timestamps must be integers"@,
        "required fields cannot be null"@ != "metric values and thresholds must be finite numbers"@,
        "required fields cannot be null"@ != "text fields must contain strings"@,
        "required fields cannot be null"@ != "operator must be gt, lt, or eq"@,
        "required fields cannot be null"@ != "channel kind must be webhook or pi-bun"@,
        "required fields cannot be null"@ != "endpoint must be an HTTP or HTTPS URL"@,
        "field values must be scalar"@ != "enabled must be a boolean"@,
        "field values must be scalar"@ != "IDs and durations must be positive integers"@,
        "field values must be scalar"@ != "timestamps must be integers"@,
        "field values must be scalar"@ != "metric values and thresholds must be finite numbers"@,
        "field values must be scalar"@ != "text fields must contain strings"@,
        "field values must be scalar"@ != "operator must be gt, lt, or eq"@,
        "field values must be scalar"@ != "channel kind must be webhook or pi-bun"@,
        "field values must be scalar"@ != "endpoint must be an HTTP or HTTPS URL"@,
        "enabled must be a boolean"@ != "IDs and durations must be positive integers"@,
        "enabled must be a boolean"@ != "timestamps must be integers"@,
        "enabled must be a boolean"@ != "metric values and thresholds must be finite numbers"@,
        "enabled must be a boolean"@ != "text fields must contain strings"@,
        "enabled must be a boolean"@ != "operator must be gt, lt, or eq"@,
        "enabled must be a boolean"@ != "channel kind must be webhook or pi-bun"@,
        "enabled must be a boolean"@ != "endpoint must be an HTTP or HTTPS URL"@,
        "IDs and durations must be positive integers"@ != "timestamps must be integers"@,
        "IDs and durations must be positive integers"@ != "metric values and thresholds must be finite numbers"@,
        "IDs and durations must be positive integers"@ != "text fields must contain strings"@,
        "IDs and durations must be positive integers"@ != "operator must be gt, lt, or eq"@,
        "IDs and durations must be positive integers"@ != "channel kind must be webhook or pi-bun"@,
        "IDs and durations must be positive integers"@ != "endpoint must be an HTTP or HTTPS URL"@,
        "timestamps must be integers"@ != "metric values and thresholds must be finite numbers"@,
        "timestamps must be integers"@ != "text fields must contain strings"@,
        "timestamps must be integers"@ != "operator must be gt, lt, or eq"@,
        "timestamps must be integers"@ != "channel kind must be webhook or pi-bun"@,
        "timestamps must be integers"@ != "endpoint must be an HTTP or HTTPS URL"@,
        "metric values and thresholds must be finite numbers"@ != "text fields must contain strings"@,
        "metric values and thresholds must be finite numbers"@ != "operator must be gt, lt, or eq"@,
        "metric values and thresholds must be finite numbers"@ != "channel kind must be webhook or pi-bun"@,
        "metric values and thresholds must be finite numbers"@ != "endpoint must be an HTTP or HTTPS URL"@,
        "text fields must contain strings"@ != "operator must be gt, lt, or eq"@,
        "text fields must contain strings"@ != "channel kind must be webhook or pi-bun"@,
        "text fields must contain strings"@ != "endpoint must be an HTTP or HTTPS URL"@,
        "operator must be gt, lt, or eq"@ != "channel kind must be webhook or pi-bun"@,
        "operator must be gt, lt, or eq"@ != "endpoint must be an HTTP or HTTPS URL"@,
        "channel kind must be webhook or pi-bun"@ != "endpoint must be an HTTP or HTTPS URL"@,
{
    reveal_strlit("request contains an unknown field");
    reveal_strlit("request is missing a required field");
    reveal_strlit("required fields cannot be null");
    reveal_strlit("field values must be scalar");
    reveal_strlit("enabled must be a boolean");
    reveal_strlit("IDs and durations must be positive integers");
    reveal_strlit("timestamps must be integers");
    reveal_strlit("metric values and thresholds must be finite numbers");
    reveal_strlit("text fields must contain strings");
    reveal_strlit("operator must be gt, lt, or eq");
    reveal_strlit("channel kind must be webhook or pi-bun");
    reveal_strlit("endpoint must be an HTTP or HTTPS URL");
    assert("request contains an unknown field"@.len() == 33);
    assert("request is missing a required field"@.len() == 35);
    assert("required fields cannot be null"@.len() == 30);
    assert("field values must be scalar"@.len() == 27);
    assert("enabled must be a boolean"@.len() == 25);
    assert("IDs and durations must be positive integers"@.len() == 43);
    assert("timestamps must be integers"@.len() == 27);
    assert("metric values and thresholds must be finite numbers"@.len() == 51);
    assert("text fields must contain strings"@.len() == 32);
    assert("operator must be gt, lt, or eq"@.len() == 30);
    assert("channel kind must be webhook or pi-bun"@.len() == 38);
    assert("endpoint must be an HTTP or HTTPS URL"@.len() == 37);
    assert("required fields cannot be null"@[0] != "operator must be gt, lt, or eq"@[0]);
    assert("field values must be scalar"@[0] != "timestamps must be integers"@[0]);
}

/// A request whose fields are columns, and whose required fields are right, is refused for the
/// first of these that is wrong: a nested value, the first value of a wrong type, the operator,
/// the kind of a channel, the endpoint.
pub proof fn law_later_refusals_say_why(
    resource: ResourceView,
    entries: Entries,
    create: bool,
    i: int,
)
    requires
        forall|j: int|
            0 <= j < entries.len() ==> resource.fields.contains((#[trigger] entries[j]).0),
        forall|j: int|
            0 <= j < resource.required.len() ==> {
                let value = lookup(entries, #[trigger] resource.required[j]);
                value != Some(FieldView::Null) && (create ==> value is Some)
            },
    ensures
        ({
            let verdict = field_verdict(resource, entries, create);
            let scalars = forall|j: int|
                0 <= j < entries.len() ==> !((#[trigger] entries[j]).1 is Array) && !(entries[j].1
                    is Object);
            let typed = forall|j: int|
                0 <= j < entries.len() ==> type_complaint((#[trigger] entries[j]).0, entries[j].1)
                    is None;
            let compared = lookup(entries, "operator"@) matches Some(FieldView::Text(operator))
                ==> operator == "gt"@ || operator == "lt"@ || operator == "eq"@;
            let transported = resource.name == "channels"@ ==> (lookup(entries, "kind"@)
                matches Some(FieldView::Text(kind)) ==> kind == "webhook"@ || kind == "pi-bun"@);
            let reachable = lookup(entries, "endpoint"@) matches Some(FieldView::Text(endpoint))
                ==> "http://"@.is_prefix_of(endpoint) || "https://"@.is_prefix_of(endpoint);
            &&& !scalars ==> verdict == Some("field values must be scalar"@)
            &&& scalars && 0 <= i < entries.len() && type_complaint(entries[i].0, entries[i].1)
                is Some && (forall|j: int|
                0 <= j < i ==> type_complaint((#[trigger] entries[j]).0, entries[j].1) is None)
                ==> verdict == type_complaint(entries[i].0, entries[i].1)
            &&& scalars && typed && !compared ==> verdict == Some(
                "operator must be gt, lt, or eq"@,
            )
            &&& scalars && typed && compared && !transported ==> verdict == Some(
                "channel kind must be webhook or pi-bun"@,
            )
            &&& scalars && typed && compared && transported && !reachable ==> verdict == Some(
                "endpoint must be an HTTP or HTTPS URL"@,
            )
        }),
{
    assert(!has_unknown(resource, entries));
    assert(!(create && lacks_required(resource, entries)));
    assert(!nulls_required(resource, entries));
    if forall|j: int|
        0 <= j < entries.len() ==> type_complaint((#[trigger] entries[j]).0, entries[j].1)
            is None {
        lemma_all_typed(entries);
    }
    if 0 <= i < entries.len() && type_complaint(entries[i].0, entries[i].1) is Some && (forall|
        j: int,
    |
        0 <= j < i ==> type_complaint((#[trigger] entries[j]).0, entries[j].1) is None) {
        lemma_first_complaint(entries, i);
    }
}

proof fn lemma_first_complaint(entries: Entries, i: int)
    requires
        0 <= i < entries.len(),
        type_complaint(entries[i].0, entries[i].1) is Some,
        forall|j: int|
            0 <= j < i ==> type_complaint((#[trigger] entries[j]).0, entries[j].1) is None,
    ensures
        first_type_complaint(entries) == type_complaint(entries[i].0, entries[i].1),
    decreases i,
{
    if i > 0 {
        let rest = entries.skip(1);
        assert(type_complaint(entries[0].0, entries[0].1) is None);
        assert(rest[i - 1] == entries[i]);
        assert forall|j: int| 0 <= j < i - 1 implies type_complaint(
            (#[trigger] rest[j]).0,
            rest[j].1,
        ) is None by {
            assert(rest[j] == entries[j + 1]);
        }
        lemma_first_complaint(rest, i - 1);
    }
}

} // verus!
