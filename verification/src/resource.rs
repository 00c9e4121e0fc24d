//! The managed resources: their tables, columns and required fields.
use crate::text::{
    join, joined, law_joining_splits_anywhere, literal_views, same_text, text_views,
};
use vstd::prelude::*;
use vstd::string::*;

verus! {

/// A managed resource.
#[derive(Debug, PartialEq)]
pub struct Resource {
    pub name: &'static str,
    pub table: &'static str,
    /// The columns besides `id`.
    pub fields: Vec<&'static str>,
    /// The fields that every record has.
    pub required: Vec<&'static str>,
    /// Records carry `created_at` and `updated_at`.
    pub timestamped: bool,
    /// Records carry `ts` and are listed by it.
    pub ordered_by_ts: bool,
}

/// The mathematical value of a [`Resource`].
#[verifier::ext_equal]
pub struct ResourceView {
    pub name: Seq<char>,
    pub table: Seq<char>,
    pub fields: Seq<Seq<char>>,
    pub required: Seq<Seq<char>>,
    pub timestamped: bool,
    pub ordered_by_ts: bool,
}

impl View for Resource {
    type V = ResourceView;

    open spec fn view(&self) -> ResourceView {
        ResourceView {
            name: self.name@,
            table: self.table@,
            fields: literal_views(self.fields@),
            required: literal_views(self.required@),
            timestamped: self.timestamped,
            ordered_by_ts: self.ordered_by_ts,
        }
    }
}

/// Hosts: the machines that are watched.
pub open spec fn host_resource() -> ResourceView {
    ResourceView {
        name: "hosts"@,
        table: "hosts"@,
        fields: seq![
            "name"@,
            "address"@,
            "kind"@,
            "enabled"@,
            "created_at"@,
            "updated_at"@,
        ],
        required: seq!["name"@, "address"@],
        timestamped: true,
        ordered_by_ts: false,
    }
}

/// Applications, each on a host.
pub open spec fn application_resource() -> ResourceView {
    ResourceView {
        name: "applications"@,
        table: "applications"@,
        fields: seq![
            "host_id"@,
            "name"@,
            "service_name"@,
            "health_url"@,
            "enabled"@,
            "created_at"@,
            "updated_at"@,
        ],
        required: seq!["host_id"@, "name"@],
        timestamped: true,
        ordered_by_ts: false,
    }
}

/// Measured values.
pub open spec fn metric_resource() -> ResourceView {
    ResourceView {
        name: "metrics"@,
        table: "metrics"@,
        fields: seq!["host_id"@, "application_id"@, "name"@, "value"@, "ts"@],
        required: seq!["name"@, "value"@],
        timestamped: false,
        ordered_by_ts: true,
    }
}

/// Log lines.
pub open spec fn log_resource() -> ResourceView {
    ResourceView {
        name: "logs"@,
        table: "logs"@,
        fields: seq!["host_id"@, "application_id"@, "source"@, "line"@, "ts"@],
        required: seq!["source"@, "line"@],
        timestamped: false,
        ordered_by_ts: true,
    }
}

/// Alert rules.
pub open spec fn alert_resource() -> ResourceView {
    ResourceView {
        name: "alerts"@,
        table: "alert_rules"@,
        fields: seq![
            "host_id"@,
            "application_id"@,
            "name"@,
            "metric_name"@,
            "operator"@,
            "threshold"@,
            "duration_secs"@,
            "enabled"@,
        ],
        required: seq!["name"@, "metric_name"@, "operator"@, "threshold"@, "duration_secs"@],
        timestamped: false,
        ordered_by_ts: false,
    }
}

/// Recipients, each reached on a channel.
pub open spec fn recipient_resource() -> ResourceView {
    ResourceView {
        name: "recipients"@,
        table: "recipients"@,
        fields: seq![
            "channel_id"@,
            "name"@,
            "target"@,
            "enabled"@,
            "created_at"@,
            "updated_at"@,
        ],
        required: seq!["channel_id"@, "name"@, "target"@],
        timestamped: true,
        ordered_by_ts: false,
    }
}

/// Channels: the connections on which recipients are reached.
pub open spec fn channel_resource() -> ResourceView {
    ResourceView {
        name: "channels"@,
        table: "channels"@,
        fields: seq![
            "name"@,
            "kind"@,
            "endpoint"@,
            "token_env"@,
            "enabled"@,
            "created_at"@,
            "updated_at"@,
        ],
        required: seq!["name"@, "kind"@, "endpoint"@],
        timestamped: true,
        ordered_by_ts: false,
    }
}

/// The resource of that name, if there is one.
pub open spec fn resource_of(name: Seq<char>) -> Option<ResourceView> {
    if name == "hosts"@ {
        Some(host_resource())
    } else if name == "applications"@ {
        Some(application_resource())
    } else if name == "metrics"@ {
        Some(metric_resource())
    } else if name == "logs"@ {
        Some(log_resource())
    } else if name == "alerts"@ {
        Some(alert_resource())
    } else if name == "recipients"@ {
        Some(recipient_resource())
    } else if name == "channels"@ {
        Some(channel_resource())
    } else {
        None
    }
}

/// The view of an optional resource.
pub open spec fn optional_resource(resource: Option<Resource>) -> Option<ResourceView> {
    match resource {
        Some(r) => Some(r@),
        None => None,
    }
}

/// The columns of a query: `id` and then the fields, separated by commas.
pub open spec fn column_list(resource: ResourceView) -> Seq<char> {
    joined(seq!["id"@] + resource.fields, ", "@)
}

fn hosts() -> (resource: Resource)
    ensures
        resource@ == host_resource(),
{
    let resource = Resource {
        name: "hosts",
        table: "hosts",
        fields: vec!["name", "address", "kind", "enabled", "created_at", "updated_at"],
        required: vec!["name", "address"],
        timestamped: true,
        ordered_by_ts: false,
    };
    assert(resource@ =~= host_resource());
    resource
}

fn applications() -> (resource: Resource)
    ensures
        resource@ == application_resource(),
{
    let resource = Resource {
        name: "applications",
        table: "applications",
        fields: vec![
            "host_id",
            "name",
            "service_name",
            "health_url",
            "enabled",
            "created_at",
            "updated_at",
        ],
        required: vec!["host_id", "name"],
        timestamped: true,
        ordered_by_ts: false,
    };
    assert(resource@ =~= application_resource());
    resource
}

fn metrics() -> (resource: Resource)
    ensures
        resource@ == metric_resource(),
{
    let resource = Resource {
        name: "metrics",
        table: "metrics",
        fields: vec!["host_id", "application_id", "name", "value", "ts"],
        required: vec!["name", "value"],
        timestamped: false,
        ordered_by_ts: true,
    };
    assert(resource@ =~= metric_resource());
    resource
}

fn logs() -> (resource: Resource)
    ensures
        resource@ == log_resource(),
{
    let resource = Resource {
        name: "logs",
        table: "logs",
        fields: vec!["host_id", "application_id", "source", "line", "ts"],
        required: vec!["source", "line"],
        timestamped: false,
        ordered_by_ts: true,
    };
    assert(resource@ =~= log_resource());
    resource
}

fn alerts() -> (resource: Resource)
    ensures
        resource@ == alert_resource(),
{
    let resource = Resource {
        name: "alerts",
        table: "alert_rules",
        fields: vec![
            "host_id",
            "application_id",
            "name",
            "metric_name",
            "operator",
            "threshold",
            "duration_secs",
            "enabled",
        ],
        required: vec!["name", "metric_name", "operator", "threshold", "duration_secs"],
        timestamped: false,
        ordered_by_ts: false,
    };
    assert(resource@ =~= alert_resource());
    resource
}

fn recipients() -> (resource: Resource)
    ensures
        resource@ == recipient_resource(),
{
    let resource = Resource {
        name: "recipients",
        table: "recipients",
        fields: vec![
            "channel_id",
            "name",
            "target",
            "enabled",
            "created_at",
            "updated_at",
        ],
        required: vec!["channel_id", "name", "target"],
        timestamped: true,
        ordered_by_ts: false,
    };
    assert(resource@ =~= recipient_resource());
    resource
}

fn channels() -> (resource: Resource)
    ensures
        resource@ == channel_resource(),
{
    let resource = Resource {
        name: "channels",
        table: "channels",
        fields: vec![
            "name",
            "kind",
            "endpoint",
            "token_env",
            "enabled",
            "created_at",
            "updated_at",
        ],
        required: vec!["name", "kind", "endpoint"],
        timestamped: true,
        ordered_by_ts: false,
    };
    assert(resource@ =~= channel_resource());
    resource
}

/// The resource of that name.
pub fn resource(name: &str) -> (found: Option<Resource>)
    ensures
        optional_resource(found) == resource_of(name@),
{
    if same_text(name, "hosts") {
        Some(hosts())
    } else if same_text(name, "applications") {
        Some(applications())
    } else if same_text(name, "metrics") {
        Some(metrics())
    } else if same_text(name, "logs") {
        Some(logs())
    } else if same_text(name, "alerts") {
        Some(alerts())
    } else if same_text(name, "recipients") {
        Some(recipients())
    } else if same_text(name, "channels") {
        Some(channels())
    } else {
        None
    }
}

/// The columns of a query, as SQL lists them.
pub fn select_columns(resource: &Resource) -> (columns: String)
    ensures
        columns@ == column_list(resource@),
{
    let mut parts: Vec<String> = Vec::new();
    parts.push("id".to_owned());
    let mut i: usize = 0;
    let ghost fields = resource@.fields;
    assert(text_views(parts@) =~= seq!["id"@] + fields.take(0));
    while i < resource.fields.len()
        invariant
            i <= resource.fields@.len(),
            fields == literal_views(resource.fields@),
            text_views(parts@) == seq!["id"@] + fields.take(i as int),
        decreases resource.fields@.len() - i,
    {
        let ghost before = parts@;
        parts.push(resource.fields[i].to_owned());
        i = i + 1;
        assert(text_views(parts@) =~= text_views(before).push(fields[i - 1]));
        assert(fields.take(i as int) =~= fields.take(i - 1).push(fields[i - 1]));
        assert(text_views(parts@) =~= seq!["id"@] + fields.take(i as int));
    }
    assert(fields.take(fields.len() as int) =~= fields);
    join(&parts, ", ")
}

/// Whether the resource has a column of that name.
pub fn has_field(resource: &Resource, name: &str) -> (has: bool)
    ensures
        has == resource@.fields.contains(name@),
{
    let mut i: usize = 0;
    while i < resource.fields.len()
        invariant
            i <= resource.fields@.len(),
            forall|j: int| 0 <= j < i ==> resource.fields@[j]@ != name@,
        decreases resource.fields@.len() - i,
    {
        if same_text(resource.fields[i], name) {
            assert(resource@.fields[i as int] == name@);
            return true;
        }
        i = i + 1;
    }
    assert forall|j: int| 0 <= j < resource@.fields.len() implies resource@.fields[j] != name@ by {
        assert(resource@.fields[j] == resource.fields@[j]@);
    }
    false
}

/// Every required field is a column, and so is every field that a new record is given: the
/// two timestamps where records are timestamped, `ts` where they are ordered by it.
pub proof fn law_required_and_stamped_fields_are_columns(name: Seq<char>)
    requires
        resource_of(name) is Some,
    ensures
        ({
            let resource = resource_of(name)->0;
            &&& forall|i: int|
                0 <= i < resource.required.len() ==> resource.fields.contains(
                    #[trigger] resource.required[i],
                )
            &&& resource.timestamped ==> resource.fields.contains("created_at"@)
                && resource.fields.contains("updated_at"@)
            &&& resource.ordered_by_ts ==> resource.fields.contains("ts"@)
            &&& resource.name == "hosts"@ ==> resource.fields.contains("kind"@)
        }),
{
}

/// Seven names are those of resources, and no other is.
pub proof fn law_the_names_of_resources(name: Seq<char>)
    ensures
        resource_of(name) is Some <==> name == "hosts"@ || name == "applications"@
            || name == "metrics"@ || name == "logs"@ || name == "alerts"@
            || name == "recipients"@ || name == "channels"@,
        resource_of(name) is Some ==> resource_of(name)->0.name == name,
{
}

/// Each resource has a table of its own, which is named after it; that of the alerts holds their
/// rules.
pub proof fn law_each_resource_has_its_own_table(name: Seq<char>, other: Seq<char>)
    requires
        resource_of(name) is Some,
    ensures
        name == "alerts"@ ==> resource_of(name)->0.table == "alert_rules"@,
        name != "alerts"@ ==> resource_of(name)->0.table == name,
        resource_of(other) is Some && name != other ==> resource_of(name)->0.table != resource_of(
            other,
        )->0.table,
{
    reveal_strlit("hosts");
    reveal_strlit("applications");
    reveal_strlit("metrics");
    reveal_strlit("logs");
    reveal_strlit("alerts");
    reveal_strlit("recipients");
    reveal_strlit("channels");
    reveal_strlit("alert_rules");
    assert("hosts"@.len() == 5);
    assert("applications"@.len() == 12);
    assert("metrics"@.len() == 7);
    assert("logs"@.len() == 4);
    assert("alerts"@.len() == 6);
    assert("recipients"@.len() == 10);
    assert("channels"@.len() == 8);
    assert("alert_rules"@.len() == 11);
}

/// Metrics and logs are ordered by their time; hosts, applications, recipients and channels bear
/// the times of their creation and change.
pub proof fn law_which_resources_bear_times(name: Seq<char>)
    requires
        resource_of(name) is Some,
    ensures
        resource_of(name)->0.ordered_by_ts <==> name == "metrics"@ || name == "logs"@,
        resource_of(name)->0.timestamped <==> name == "hosts"@ || name == "applications"@ || name
            == "recipients"@ || name == "channels"@,
{
    reveal_strlit("hosts");
    reveal_strlit("applications");
    reveal_strlit("metrics");
    reveal_strlit("logs");
    reveal_strlit("alerts");
    reveal_strlit("recipients");
    reveal_strlit("channels");
    assert("hosts"@.len() == 5);
    assert("applications"@.len() == 12);
    assert("metrics"@.len() == 7);
    assert("logs"@.len() == 4);
    assert("alerts"@.len() == 6);
    assert("recipients"@.len() == 10);
    assert("channels"@.len() == 8);
}

/// Which resources have a column of each name, and that no resource has any other.
#[verifier::rlimit(40)]
pub proof fn law_which_resources_have_a_column(name: Seq<char>, field: Seq<char>)
    requires
        resource_of(name) is Some,
    ensures
        ({
            let resource = resource_of(name)->0;
            &&& resource.fields.contains("name"@) <==> name == "hosts"@
                || name == "applications"@ || name == "metrics"@ || name == "alerts"@
                || name == "recipients"@ || name == "channels"@
            &&& resource.fields.contains("address"@) <==> name == "hosts"@
            &&& resource.fields.contains("kind"@) <==> name == "hosts"@ || name == "channels"@
            &&& resource.fields.contains("enabled"@) <==> name == "hosts"@
                || name == "applications"@ || name == "alerts"@ || name == "recipients"@
                || name == "channels"@
            &&& resource.fields.contains("created_at"@) <==> name == "hosts"@
                || name == "applications"@ || name == "recipients"@ || name == "channels"@
            &&& resource.fields.contains("updated_at"@) <==> name == "hosts"@
                || name == "applications"@ || name == "recipients"@ || name == "channels"@
            &&& resource.fields.contains("host_id"@) <==> name == "applications"@
                || name == "metrics"@ || name == "logs"@ || name == "alerts"@
            &&& resource.fields.contains("service_name"@) <==> name == "applications"@
            &&& resource.fields.contains("health_url"@) <==> name == "applications"@
            &&& resource.fields.contains("application_id"@) <==> name == "metrics"@
                || name == "logs"@ || name == "alerts"@
            &&& resource.fields.contains("value"@) <==> name == "metrics"@
            &&& resource.fields.contains("ts"@) <==> name == "metrics"@ || name == "logs"@
            &&& resource.fields.contains("source"@) <==> name == "logs"@
            &&& resource.fields.contains("line"@) <==> name == "logs"@
            &&& resource.fields.contains("metric_name"@) <==> name == "alerts"@
            &&& resource.fields.contains("operator"@) <==> name == "alerts"@
            &&& resource.fields.contains("threshold"@) <==> name == "alerts"@
            &&& resource.fields.contains("duration_secs"@) <==> name == "alerts"@
            &&& resource.fields.contains("channel_id"@) <==> name == "recipients"@
            &&& resource.fields.contains("target"@) <==> name == "recipients"@
            &&& resource.fields.contains("endpoint"@) <==> name == "channels"@
            &&& resource.fields.contains("token_env"@) <==> name == "channels"@
            &&& resource.fields.contains(field) ==> field == "name"@ || field == "address"@
                || field == "kind"@ || field == "enabled"@ || field == "created_at"@
                || field == "updated_at"@ || field == "host_id"@ || field == "service_name"@
                || field == "health_url"@ || field == "application_id"@ || field == "value"@
                || field == "ts"@ || field == "source"@ || field == "line"@
                || field == "metric_name"@ || field == "operator"@ || field == "threshold"@
                || field == "duration_secs"@ || field == "channel_id"@ || field == "target"@
                || field == "endpoint"@ || field == "token_env"@
            &&& resource.fields.no_duplicates()
        }),
{
    let resource = resource_of(name)->0;
    reveal_strlit("hosts");
    reveal_strlit("applications");
    reveal_strlit("metrics");
    reveal_strlit("logs");
    reveal_strlit("alerts");
    reveal_strlit("recipients");
    reveal_strlit("channels");
    assert("hosts"@.len() == 5);
    assert("applications"@.len() == 12);
    assert("metrics"@.len() == 7);
    assert("logs"@.len() == 4);
    assert("alerts"@.len() == 6);
    assert("recipients"@.len() == 10);
    assert("channels"@.len() == 8);
    reveal_strlit("name");
    reveal_strlit("address");
    reveal_strlit("kind");
    reveal_strlit("enabled");
    reveal_strlit("created_at");
    reveal_strlit("updated_at");
    reveal_strlit("host_id");
    reveal_strlit("service_name");
    reveal_strlit("health_url");
    reveal_strlit("application_id");
    reveal_strlit("value");
    reveal_strlit("ts");
    reveal_strlit("source");
    reveal_strlit("line");
    reveal_strlit("metric_name");
    reveal_strlit("operator");
    reveal_strlit("threshold");
    reveal_strlit("duration_secs");
    reveal_strlit("channel_id");
    reveal_strlit("target");
    reveal_strlit("endpoint");
    reveal_strlit("token_env");
    assert("name"@.len() == 4);
    assert("address"@.len() == 7);
    assert("kind"@.len() == 4);
    assert("enabled"@.len() == 7);
    assert("created_at"@.len() == 10);
    assert("updated_at"@.len() == 10);
    assert("host_id"@.len() == 7);
    assert("service_name"@.len() == 12);
    assert("health_url"@.len() == 10);
    assert("application_id"@.len() == 14);
    assert("value"@.len() == 5);
    assert("ts"@.len() == 2);
    assert("source"@.len() == 6);
    assert("line"@.len() == 4);
    assert("metric_name"@.len() == 11);
    assert("operator"@.len() == 8);
    assert("threshold"@.len() == 9);
    assert("duration_secs"@.len() == 13);
    assert("channel_id"@.len() == 10);
    assert("target"@.len() == 6);
    assert("endpoint"@.len() == 8);
    assert("token_env"@.len() == 9);
    assert("name"@[0] != "kind"@[0]);
    assert("name"@[0] != "line"@[0]);
    assert("address"@[0] != "enabled"@[0]);
    assert("address"@[0] != "host_id"@[0]);
    assert("kind"@[0] != "line"@[0]);
    assert("enabled"@[0] != "host_id"@[0]);
    assert("created_at"@[0] != "updated_at"@[0]);
    assert("created_at"@[0] != "health_url"@[0]);
    assert("created_at"@[1] != "channel_id"@[1]);
    assert("updated_at"@[0] != "health_url"@[0]);
    assert("updated_at"@[0] != "channel_id"@[0]);
    assert("health_url"@[0] != "channel_id"@[0]);
    assert("source"@[0] != "target"@[0]);
    assert("operator"@[0] != "endpoint"@[0]);
    assert("threshold"@[1] != "token_env"@[1]);
    if name == "hosts"@ {
        assert(resource.fields[0] == "name"@);
        assert(resource.fields[1] == "address"@);
        assert(resource.fields[2] == "kind"@);
        assert(resource.fields[3] == "enabled"@);
        assert(resource.fields[4] == "created_at"@);
        assert(resource.fields[5] == "updated_at"@);
        assert(resource.required[0] == "name"@);
        assert(resource.required[1] == "address"@);
    } else if name == "applications"@ {
        assert(resource.fields[0] == "host_id"@);
        assert(resource.fields[1] == "name"@);
        assert(resource.fields[2] == "service_name"@);
        assert(resource.fields[3] == "health_url"@);
        assert(resource.fields[4] == "enabled"@);
        assert(resource.fields[5] == "created_at"@);
        assert(resource.fields[6] == "updated_at"@);
        assert(resource.required[0] == "host_id"@);
        assert(resource.required[1] == "name"@);
    } else if name == "metrics"@ {
        assert(resource.fields[0] == "host_id"@);
        assert(resource.fields[1] == "application_id"@);
        assert(resource.fields[2] == "name"@);
        assert(resource.fields[3] == "value"@);
        assert(resource.fields[4] == "ts"@);
        assert(resource.required[0] == "name"@);
        assert(resource.required[1] == "value"@);
    } else if name == "logs"@ {
        assert(resource.fields[0] == "host_id"@);
        assert(resource.fields[1] == "application_id"@);
        assert(resource.fields[2] == "source"@);
        assert(resource.fields[3] == "line"@);
        assert(resource.fields[4] == "ts"@);
        assert(resource.required[0] == "source"@);
        assert(resource.required[1] == "line"@);
    } else if name == "alerts"@ {
        assert(resource.fields[0] == "host_id"@);
        assert(resource.fields[1] == "application_id"@);
        assert(resource.fields[2] == "name"@);
        assert(resource.fields[3] == "metric_name"@);
        assert(resource.fields[4] == "operator"@);
        assert(resource.fields[5] == "threshold"@);
        assert(resource.fields[6] == "duration_secs"@);
        assert(resource.fields[7] == "enabled"@);
        assert(resource.required[0] == "name"@);
        assert(resource.required[1] == "metric_name"@);
        assert(resource.required[2] == "operator"@);
        assert(resource.required[3] == "threshold"@);
        assert(resource.required[4] == "duration_secs"@);
    } else if name == "recipients"@ {
        assert(resource.fields[0] == "channel_id"@);
        assert(resource.fields[1] == "name"@);
        assert(resource.fields[2] == "target"@);
        assert(resource.fields[3] == "enabled"@);
        assert(resource.fields[4] == "created_at"@);
        assert(resource.fields[5] == "updated_at"@);
        assert(resource.required[0] == "channel_id"@);
        assert(resource.required[1] == "name"@);
        assert(resource.required[2] == "target"@);
    } else if name == "channels"@ {
        assert(resource.fields[0] == "name"@);
        assert(resource.fields[1] == "kind"@);
        assert(resource.fields[2] == "endpoint"@);
        assert(resource.fields[3] == "token_env"@);
        assert(resource.fields[4] == "enabled"@);
        assert(resource.fields[5] == "created_at"@);
        assert(resource.fields[6] == "updated_at"@);
        assert(resource.required[0] == "name"@);
        assert(resource.required[1] == "kind"@);
        assert(resource.required[2] == "endpoint"@);
    }
}

/// Which resources require a field of each name, and that no resource requires any other.
#[verifier::rlimit(40)]
pub proof fn law_which_resources_require_a_field(name: Seq<char>, field: Seq<char>)
    requires
        resource_of(name) is Some,
    ensures
        ({
            let resource = resource_of(name)->0;
            &&& resource.required.contains("name"@) <==> name == "hosts"@
                || name == "applications"@ || name == "metrics"@ || name == "alerts"@
                || name == "recipients"@ || name == "channels"@
            &&& resource.required.contains("address"@) <==> name == "hosts"@
            &&& resource.required.contains("kind"@) <==> name == "channels"@
            &&& resource.required.contains("enabled"@) <==> false
            &&& resource.required.contains("created_at"@) <==> false
            &&& resource.required.contains("updated_at"@) <==> false
            &&& resource.required.contains("host_id"@) <==> name == "applications"@
            &&& resource.required.contains("service_name"@) <==> false
            &&& resource.required.contains("health_url"@) <==> false
            &&& resource.required.contains("application_id"@) <==> false
            &&& resource.required.contains("value"@) <==> name == "metrics"@
            &&& resource.required.contains("ts"@) <==> false
            &&& resource.required.contains("source"@) <==> name == "logs"@
            &&& resource.required.contains("line"@) <==> name == "logs"@
            &&& resource.required.contains("metric_name"@) <==> name == "alerts"@
            &&& resource.required.contains("operator"@) <==> name == "alerts"@
            &&& resource.required.contains("threshold"@) <==> name == "alerts"@
            &&& resource.required.contains("duration_secs"@) <==> name == "alerts"@
            &&& resource.required.contains("channel_id"@) <==> name == "recipients"@
            &&& resource.required.contains("target"@) <==> name == "recipients"@
            &&& resource.required.contains("endpoint"@) <==> name == "channels"@
            &&& resource.required.contains("token_env"@) <==> false
            &&& resource.required.contains(field) ==> resource.fields.contains(field)
        }),
{
    let resource = resource_of(name)->0;
    reveal_strlit("hosts");
    reveal_strlit("applications");
    reveal_strlit("metrics");
    reveal_strlit("logs");
    reveal_strlit("alerts");
    reveal_strlit("recipients");
    reveal_strlit("channels");
    assert("hosts"@.len() == 5);
    assert("applications"@.len() == 12);
    assert("metrics"@.len() == 7);
    assert("logs"@.len() == 4);
    assert("alerts"@.len() == 6);
    assert("recipients"@.len() == 10);
    assert("channels"@.len() == 8);
    reveal_strlit("name");
    reveal_strlit("address");
    reveal_strlit("kind");
    reveal_strlit("enabled");
    reveal_strlit("created_at");
    reveal_strlit("updated_at");
    reveal_strlit("host_id");
    reveal_strlit("service_name");
    reveal_strlit("health_url");
    reveal_strlit("application_id");
    reveal_strlit("value");
    reveal_strlit("ts");
    reveal_strlit("source");
    reveal_strlit("line");
    reveal_strlit("metric_name");
    reveal_strlit("operator");
    reveal_strlit("threshold");
    reveal_strlit("duration_secs");
    reveal_strlit("channel_id");
    reveal_strlit("target");
    reveal_strlit("endpoint");
    reveal_strlit("token_env");
    assert("name"@.len() == 4);
    assert("address"@.len() == 7);
    assert("kind"@.len() == 4);
    assert("enabled"@.len() == 7);
    assert("created_at"@.len() == 10);
    assert("updated_at"@.len() == 10);
    assert("host_id"@.len() == 7);
    assert("service_name"@.len() == 12);
    assert("health_url"@.len() == 10);
    assert("application_id"@.len() == 14);
    assert("value"@.len() == 5);
    assert("ts"@.len() == 2);
    assert("source"@.len() == 6);
    assert("line"@.len() == 4);
    assert("metric_name"@.len() == 11);
    assert("operator"@.len() == 8);
    assert("threshold"@.len() == 9);
    assert("duration_secs"@.len() == 13);
    assert("channel_id"@.len() == 10);
    assert("target"@.len() == 6);
    assert("endpoint"@.len() == 8);
    assert("token_env"@.len() == 9);
    assert("name"@[0] != "kind"@[0]);
    assert("name"@[0] != "line"@[0]);
    assert("address"@[0] != "enabled"@[0]);
    assert("address"@[0] != "host_id"@[0]);
    assert("kind"@[0] != "line"@[0]);
    assert("enabled"@[0] != "host_id"@[0]);
    assert("created_at"@[0] != "updated_at"@[0]);
    assert("created_at"@[0] != "health_url"@[0]);
    assert("created_at"@[1] != "channel_id"@[1]);
    assert("updated_at"@[0] != "health_url"@[0]);
    assert("updated_at"@[0] != "channel_id"@[0]);
    assert("health_url"@[0] != "channel_id"@[0]);
    assert("source"@[0] != "target"@[0]);
    assert("operator"@[0] != "endpoint"@[0]);
    assert("threshold"@[1] != "token_env"@[1]);
    if name == "hosts"@ {
        assert(resource.fields[0] == "name"@);
        assert(resource.fields[1] == "address"@);
        assert(resource.fields[2] == "kind"@);
        assert(resource.fields[3] == "enabled"@);
        assert(resource.fields[4] == "created_at"@);
        assert(resource.fields[5] == "updated_at"@);
        assert(resource.required[0] == "name"@);
        assert(resource.required[1] == "address"@);
    } else if name == "applications"@ {
        assert(resource.fields[0] == "host_id"@);
        assert(resource.fields[1] == "name"@);
        assert(resource.fields[2] == "service_name"@);
        assert(resource.fields[3] == "health_url"@);
        assert(resource.fields[4] == "enabled"@);
        assert(resource.fields[5] == "created_at"@);
        assert(resource.fields[6] == "updated_at"@);
        assert(resource.required[0] == "host_id"@);
        assert(resource.required[1] == "name"@);
    } else if name == "metrics"@ {
        assert(resource.fields[0] == "host_id"@);
        assert(resource.fields[1] == "application_id"@);
        assert(resource.fields[2] == "name"@);
        assert(resource.fields[3] == "value"@);
        assert(resource.fields[4] == "ts"@);
        assert(resource.required[0] == "name"@);
        assert(resource.required[1] == "value"@);
    } else if name == "logs"@ {
        assert(resource.fields[0] == "host_id"@);
        assert(resource.fields[1] == "application_id"@);
        assert(resource.fields[2] == "source"@);
        assert(resource.fields[3] == "line"@);
        assert(resource.fields[4] == "ts"@);
        assert(resource.required[0] == "source"@);
        assert(resource.required[1] == "line"@);
    } else if name == "alerts"@ {
        assert(resource.fields[0] == "host_id"@);
        assert(resource.fields[1] == "application_id"@);
        assert(resource.fields[2] == "name"@);
        assert(resource.fields[3] == "metric_name"@);
        assert(resource.fields[4] == "operator"@);
        assert(resource.fields[5] == "threshold"@);
        assert(resource.fields[6] == "duration_secs"@);
        assert(resource.fields[7] == "enabled"@);
        assert(resource.required[0] == "name"@);
        assert(resource.required[1] == "metric_name"@);
        assert(resource.required[2] == "operator"@);
        assert(resource.required[3] == "threshold"@);
        assert(resource.required[4] == "duration_secs"@);
    } else if name == "recipients"@ {
        assert(resource.fields[0] == "channel_id"@);
        assert(resource.fields[1] == "name"@);
        assert(resource.fields[2] == "target"@);
        assert(resource.fields[3] == "enabled"@);
        assert(resource.fields[4] == "created_at"@);
        assert(resource.fields[5] == "updated_at"@);
        assert(resource.required[0] == "channel_id"@);
        assert(resource.required[1] == "name"@);
        assert(resource.required[2] == "target"@);
    } else if name == "channels"@ {
        assert(resource.fields[0] == "name"@);
        assert(resource.fields[1] == "kind"@);
        assert(resource.fields[2] == "endpoint"@);
        assert(resource.fields[3] == "token_env"@);
        assert(resource.fields[4] == "enabled"@);
        assert(resource.fields[5] == "created_at"@);
        assert(resource.fields[6] == "updated_at"@);
        assert(resource.required[0] == "name"@);
        assert(resource.required[1] == "kind"@);
        assert(resource.required[2] == "endpoint"@);
    }
}

/// A query reads the id first and then every column of the resource, with a comma and a blank
/// between each two.
pub proof fn law_queries_read_every_column(resource: ResourceView, i: int)
    requires
        0 <= i < resource.fields.len(),
    ensures
        ("id, "@ + resource.fields[0]).is_prefix_of(column_list(resource)),
        ({
            let before = resource.fields.take(i);
            let behind = resource.fields.skip(i);
            column_list(resource) == joined(seq!["id"@] + before, ", "@) + ", "@ + joined(
                behind,
                ", "@,
            )
        }),
        ("id, "@ + joined(resource.fields, ", "@)) == column_list(resource),
{
    let id = seq!["id"@];
    let fields = resource.fields;
    law_joining_splits_anywhere(id, fields, ", "@);
    reveal_strlit("id, ");
    reveal_strlit("id");
    reveal_strlit(", ");
    assert("id, "@ =~= "id"@ + ", "@);
    let before = id + fields.take(i);
    let behind = fields.skip(i);
    law_joining_splits_anywhere(before, behind, ", "@);
    assert(before + behind =~= id + fields);
    if fields.len() == 1 {
        law_joining_splits_anywhere(fields, fields, ", "@);
    } else {
        law_joining_splits_anywhere(fields.take(1), fields.skip(1), ", "@);
        assert(fields.take(1) + fields.skip(1) =~= fields);
    }
    let head = "id, "@ + fields[0];
    assert(column_list(resource).take(head.len() as int) =~= head);
}

} // verus!
