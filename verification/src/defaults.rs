//! The fields that the service fills in itself.
use crate::clock::{clock_time, utc_seconds};
use crate::fields::{
    entries_of, law_put_lookup, lookup, put, put_absent, put_absent_field, put_field, Entries,
    Preset,
};
use crate::json::{FieldView, JsonNumber};
use crate::resource::{
    has_field, law_required_and_stamped_fields_are_columns, law_the_names_of_resources,
    law_which_resources_bear_times, law_which_resources_have_a_column, resource_of, Resource,
    ResourceView,
};
use crate::text::same_text;
use crate::validation::{has_unknown, law_each_field_has_its_type, type_complaint};
use vstd::prelude::*;

verus! {

/// The field that holds a point in time.
pub open spec fn time_field(now: i64) -> FieldView {
    FieldView::Number(JsonNumber::of_integer(now))
}

/// The fields of a new record: both timestamps are set, whatever was given; `ts`, `enabled`
/// and the kind of a host are filled in where nothing was given.
pub open spec fn with_creation_defaults(resource: ResourceView, entries: Entries, now: i64) -> Entries {
    let stamped = if resource.timestamped {
        put(
            put(entries, "created_at"@, time_field(now)),
            "updated_at"@,
            time_field(now),
        )
    } else {
        entries
    };
    let timed = if resource.ordered_by_ts {
        put_absent(stamped, "ts"@, time_field(now))
    } else {
        stamped
    };
    let enabled = if resource.fields.contains("enabled"@) {
        put_absent(timed, "enabled"@, FieldView::Bool(true))
    } else {
        timed
    };
    if resource.name == "hosts"@ {
        put_absent(enabled, "kind"@, FieldView::Text("linux"@))
    } else {
        enabled
    }
}

/// The fields of a request with those that the service fills in at `now`.
pub open spec fn with_defaults(resource: ResourceView, entries: Entries, create: bool, now: i64) -> Entries {
    if create {
        with_creation_defaults(resource, entries, now)
    } else if resource.timestamped {
        put(entries, "updated_at"@, time_field(now))
    } else {
        entries
    }
}

/// Fills in the fields that the service sets itself, at the time `now`.
pub fn apply_defaults_at(
    resource: &Resource,
    request: &mut serde_json::Map<String, serde_json::Value>,
    create: bool,
    now: i64,
)
    ensures
        entries_of(*final(request)) == with_defaults(
            resource@,
            entries_of(*old(request)),
            create,
            now,
        ),
{
    if create {
        if resource.timestamped {
            put_field(request, "created_at", Preset::Integer(now));
            put_field(request, "updated_at", Preset::Integer(now));
        }
        if resource.ordered_by_ts {
            put_absent_field(request, "ts", Preset::Integer(now));
        }
        if has_field(resource, "enabled") {
            put_absent_field(request, "enabled", Preset::Flag(true));
        }
        if same_text(resource.name, "hosts") {
            put_absent_field(request, "kind", Preset::Literal("linux"));
        }
    } else if resource.timestamped {
        put_field(request, "updated_at", Preset::Integer(now));
    }
}

/// Fills in the fields that the service sets itself, at the current time.
pub fn apply_defaults(
    resource: &Resource,
    request: &mut serde_json::Map<String, serde_json::Value>,
    create: bool,
)
    ensures
        exists|now: i64|
            clock_time(now) && entries_of(*final(request)) == #[trigger] with_defaults(
                resource@,
                entries_of(*old(request)),
                create,
                now,
            ),
{
    let now: i64 = utc_seconds();
    apply_defaults_at(resource, request, create, now);
}

/// Something stands under a name exactly when some entry has that name.
proof fn lemma_lookup_some(entries: Entries, name: Seq<char>)
    ensures
        lookup(entries, name) is Some <==> exists|i: int|
            0 <= i < entries.len() && (#[trigger] entries[i]).0 == name,
    decreases entries.len(),
{
    if entries.len() > 0 {
        let rest = entries.skip(1);
        lemma_lookup_some(rest, name);
        if entries[0].0 != name {
            if lookup(rest, name) is Some {
                let i = choose|i: int| 0 <= i < rest.len() && (#[trigger] rest[i]).0 == name;
                assert(entries[i + 1].0 == name);
            }
            if exists|i: int| 0 <= i < entries.len() && (#[trigger] entries[i]).0 == name {
                let i = choose|i: int| 0 <= i < entries.len() && (#[trigger] entries[i]).0 == name;
                assert(rest[i - 1].0 == name);
            }
        }
    }
}

/// A record is stamped by the service and not by its client: a new timestamped record bears
/// the time of its creation in both timestamps, whatever was given, and a changed one bears
/// the time of the change.
pub proof fn law_timestamps_are_the_services_own(
    resource: ResourceView,
    entries: Entries,
    create: bool,
    now: i64,
)
    requires
        resource.timestamped,
    ensures
        lookup(with_defaults(resource, entries, create, now), "updated_at"@) == Some(
            time_field(now),
        ),
        create ==> lookup(with_defaults(resource, entries, create, now), "created_at"@) == Some(
            time_field(now),
        ),
{
    law_defaults_lookup(resource, entries, create, now, "updated_at"@);
    law_defaults_lookup(resource, entries, create, now, "created_at"@);
    reveal_strlit("created_at");
    reveal_strlit("updated_at");
    assert("created_at"@[0] != "updated_at"@[0]);
}

/// What stands under each name once the defaults are applied: the two timestamps are the
/// service's own, `ts`, `enabled` and `kind` keep what was given, and nothing else changes.
pub proof fn law_defaults_lookup(
    resource: ResourceView,
    entries: Entries,
    create: bool,
    now: i64,
    name: Seq<char>,
)
    ensures
        lookup(with_defaults(resource, entries, create, now), name) == if resource.timestamped && (
        name == "updated_at"@ || create && name == "created_at"@) {
            Some(time_field(now))
        } else if lookup(entries, name) is Some || !create {
            lookup(entries, name)
        } else if resource.ordered_by_ts && name == "ts"@ {
            Some(time_field(now))
        } else if resource.fields.contains("enabled"@) && name == "enabled"@ {
            Some(FieldView::Bool(true))
        } else if resource.name == "hosts"@ && name == "kind"@ {
            Some(FieldView::Text("linux"@))
        } else {
            None
        },
{
    let time = time_field(now);
    reveal_strlit("created_at");
    reveal_strlit("updated_at");
    reveal_strlit("ts");
    reveal_strlit("enabled");
    reveal_strlit("kind");
    assert("created_at"@[0] != "updated_at"@[0]);
    let e0 = entries;
    law_put_lookup(e0, "updated_at"@, time, name);
    law_put_lookup(e0, "created_at"@, time, name);
    let e1 = put(e0, "created_at"@, time);
    law_put_lookup(e1, "updated_at"@, time, name);
    let stamped = if resource.timestamped {
        put(e1, "updated_at"@, time)
    } else {
        entries
    };
    law_put_lookup(stamped, "ts"@, time, name);
    law_put_lookup(stamped, "ts"@, time, "ts"@);
    let timed = if resource.ordered_by_ts {
        put_absent(stamped, "ts"@, time)
    } else {
        stamped
    };
    law_put_lookup(timed, "enabled"@, FieldView::Bool(true), name);
    let enabled = if resource.fields.contains("enabled"@) {
        put_absent(timed, "enabled"@, FieldView::Bool(true))
    } else {
        timed
    };
    law_put_lookup(enabled, "kind"@, FieldView::Text("linux"@), name);
}

/// Defaults only fill columns: a request without unknown fields has none once they are
/// applied.
pub proof fn law_defaults_are_columns(
    name: Seq<char>,
    entries: Entries,
    create: bool,
    now: i64,
)
    requires
        resource_of(name) is Some,
        !has_unknown(resource_of(name)->0, entries),
    ensures
        !has_unknown(resource_of(name)->0, with_defaults(resource_of(name)->0, entries, create, now)),
{
    let resource = resource_of(name)->0;
    law_required_and_stamped_fields_are_columns(name);
    let after = with_defaults(resource, entries, create, now);
    assert forall|i: int| 0 <= i < after.len() implies resource.fields.contains(
        (#[trigger] after[i]).0,
    ) by {
        let other = after[i].0;
        lemma_lookup_some(after, other);
        law_defaults_lookup(resource, entries, create, now, other);
        lemma_lookup_some(entries, other);
    }
}

/// The time that is filled in reads as the time of the request, and as no double; it is of the
/// type that the rules ask of a time.
pub proof fn law_filled_in_times_read_as_now(now: i64)
    ensures
        time_field(now).integer() == Some(now),
        !(time_field(now) is Null),
        type_complaint("ts"@, time_field(now)) is None,
        type_complaint("created_at"@, time_field(now)) is None,
        type_complaint("updated_at"@, time_field(now)) is None,
{
    law_each_field_has_its_type("ts"@, time_field(now));
    law_each_field_has_its_type("created_at"@, time_field(now));
    law_each_field_has_its_type("updated_at"@, time_field(now));
}

/// What a client gives for anything but the two timestamps is kept: a default only fills what
/// was left out, and a change fills in nothing else.
pub proof fn law_given_fields_are_kept(
    resource: ResourceView,
    entries: Entries,
    create: bool,
    now: i64,
    name: Seq<char>,
)
    requires
        name != "created_at"@,
        name != "updated_at"@,
    ensures
        lookup(entries, name) is Some ==> lookup(
            with_defaults(resource, entries, create, now),
            name,
        ) == lookup(entries, name),
        !create ==> lookup(with_defaults(resource, entries, create, now), name) == lookup(
            entries,
            name,
        ),
        lookup(with_defaults(resource, entries, create, now), name) != lookup(entries, name) ==> name
            == "ts"@ || name == "enabled"@ || name == "kind"@,
{
    law_defaults_lookup(resource, entries, create, now, name);
}

/// A new record of each resource is given the fields that its client left out: the time of a
/// metric or a log line, the flag of all others, the kind of a host, and both timestamps where
/// the resource bears them.
pub proof fn law_new_records_are_given_their_fields(name: Seq<char>, entries: Entries, now: i64)
    requires
        resource_of(name) is Some,
    ensures
        ({
            let given = with_defaults(resource_of(name)->0, entries, true, now);
            &&& name == "metrics"@ || name == "logs"@ ==> lookup(given, "ts"@) is Some
            &&& name != "metrics"@ && name != "logs"@ ==> lookup(given, "enabled"@) is Some
            &&& name == "hosts"@ ==> lookup(given, "kind"@) is Some
            &&& name == "hosts"@ && lookup(entries, "kind"@) is None ==> lookup(given, "kind"@)
                == Some(FieldView::Text("linux"@))
            &&& name != "metrics"@ && name != "logs"@ && lookup(entries, "enabled"@) is None
                ==> lookup(given, "enabled"@) == Some(FieldView::Bool(true))
            &&& (name == "metrics"@ || name == "logs"@) && lookup(entries, "ts"@) is None ==> lookup(
                given,
                "ts"@,
            ) == Some(time_field(now))
            &&& name == "hosts"@ || name == "applications"@ || name == "recipients"@ || name
                == "channels"@ ==> lookup(given, "created_at"@) == Some(time_field(now)) && lookup(
                given,
                "updated_at"@,
            ) == Some(time_field(now))
        }),
{
    let resource = resource_of(name)->0;
    reveal_strlit("ts");
    reveal_strlit("enabled");
    reveal_strlit("kind");
    reveal_strlit("created_at");
    reveal_strlit("updated_at");
    assert("ts"@.len() == 2);
    assert("enabled"@.len() == 7);
    assert("kind"@.len() == 4);
    assert("created_at"@.len() == 10);
    assert("updated_at"@.len() == 10);
    assert("created_at"@[0] != "updated_at"@[0]);
    law_the_names_of_resources(name);
    law_which_resources_bear_times(name);
    law_which_resources_have_a_column(name, "enabled"@);
    reveal_strlit("hosts");
    reveal_strlit("applications");
    reveal_strlit("metrics");
    reveal_strlit("logs");
    reveal_strlit("alerts");
    reveal_strlit("recipients");
    reveal_strlit("channels");
    assert("hosts"@.len() == 5);
    assert("applications"@.len() == 12);
    assert("metrics"@.len() == 7);
    assert("logs"@.len() == 4);
    assert("alerts"@.len() == 6);
    assert("recipients"@.len() == 10);
    assert("channels"@.len() == 8);
    law_defaults_lookup(resource, entries, true, now, "ts"@);
    law_defaults_lookup(resource, entries, true, now, "enabled"@);
    law_defaults_lookup(resource, entries, true, now, "kind"@);
    law_defaults_lookup(resource, entries, true, now, "created_at"@);
    law_defaults_lookup(resource, entries, true, now, "updated_at"@);
}

} // verus!
