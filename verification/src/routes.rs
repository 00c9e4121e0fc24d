//! The read routes, and the intake of log lines from other applications.
use crate::clock::{clock_time, utc_seconds};
use crate::json::{
    array, count, double, double_tree, integer, integer_tree, item_views, lemma_member,
    member_views, no_members, object, object1, object2, optional_integer, optional_integer_tree,
    put_member, text, under, Double, Json, JsonNumber, JsonView,
};
use crate::sql::{
    integer_or_null, optional_integer_value, optional_text_value, statement, statement_views,
    text_or_null, text_value, value_views, SqlValue, SqlView, Statement, StatementView,
};
use crate::text::{optional_text, without_prefix};
use vstd::prelude::*;
use vstd::string::*;
use vstd::utf8::encode_utf8_decode_utf8;

verus! {

/// Reads the latest value of each metric of each source.
pub const LATEST_METRICS: &'static str =
    "SELECT host_id, application_id, name, value, ts FROM metrics WHERE id IN (SELECT MAX(id) FROM metrics GROUP BY host_id, application_id, name) ORDER BY host_id, application_id, name";

/// Reads the metrics of a window, at most a thousand of them, the earliest first.
pub const METRICS: &'static str =
    "SELECT host_id, application_id, name, value, ts FROM metrics WHERE ts >= ?1 AND (?2 IS NULL OR name = ?2) AND (?3 IS NULL OR host_id = ?3) AND (?4 IS NULL OR application_id = ?4) ORDER BY ts LIMIT 1000";

/// Reads the log lines of a window, at most five hundred of them, the latest first.
pub const LOGS: &'static str =
    "SELECT host_id, application_id, source, line, ts FROM logs WHERE ts >= ?1 AND (?2 IS NULL OR source = ?2) AND (?3 IS NULL OR host_id = ?3) AND (?4 IS NULL OR application_id = ?4) ORDER BY ts DESC LIMIT 500";

/// Reads the alerts that were triggered in a window or are not resolved, the latest first.
pub const ALERTS: &'static str =
    "SELECT e.id, r.host_id, r.application_id, r.name, r.metric_name, r.threshold, e.value, e.triggered_at, e.resolved_at FROM alert_events e JOIN alert_rules r ON e.rule_id = r.id WHERE (e.triggered_at >= ?1 OR e.resolved_at IS NULL) AND (?2 IS NULL OR r.host_id = ?2) AND (?3 IS NULL OR r.application_id = ?3) ORDER BY e.triggered_at DESC";

/// Counts the applications with an id on a host.
pub const OWNERS: &'static str = "SELECT COUNT(*) FROM applications WHERE id = ?1 AND host_id = ?2";

/// Stores a log line.
pub const STORE_LINE: &'static str =
    "INSERT INTO logs (host_id, application_id, source, line, ts) VALUES (?1, ?2, ?3, ?4, ?5)";

/// The tree that says that the service is up.
pub open spec fn health_tree(version: Seq<char>) -> JsonView {
    JsonView::Object(
        seq![
            ("app"@, JsonView::Text("akurai-monitor"@)),
            ("status"@, JsonView::Text("ok"@)),
            ("version"@, JsonView::Text(version)),
        ],
    )
}

/// The tree that says that the service is up.
pub fn health(version: &str) -> (body: Json)
    ensures
        body@ == health_tree(version@),
{
    let mut members = no_members();
    put_member(&mut members, "app", text("akurai-monitor"));
    put_member(&mut members, "status", text("ok"));
    put_member(&mut members, "version", text(version));
    assert(member_views(members@) =~= seq![
        ("app"@, JsonView::Text("akurai-monitor"@)),
        ("status"@, JsonView::Text("ok"@)),
        ("version"@, JsonView::Text(version@)),
    ]);
    object(members)
}

/// The start of a window that ends at `now` and is so many hours long; none where it, or the
/// window's length in seconds, is out of range.
pub open spec fn window_start(now: i64, hours: i64) -> Option<i64> {
    if i64::MIN <= hours * 3600 <= i64::MAX && i64::MIN <= now - hours * 3600 <= i64::MAX {
        Some((now - hours * 3600) as i64)
    } else {
        None
    }
}

/// The hours that are asked for, or else the default.
pub open spec fn hours_or(hours: Option<i64>, default: i64) -> i64 {
    match hours {
        Some(hours) => hours,
        None => default,
    }
}

/// The start of a window of so many hours, or of the default length, that ends at `now`.
pub fn cutoff(now: i64, hours: Option<i64>, default: i64) -> (start: Option<i64>)
    ensures
        start == window_start(now, hours_or(hours, default)),
{
    let hours: i64 = match hours {
        Some(hours) => hours,
        None => default,
    };
    let seconds: i128 = (hours as i128) * 3600;
    let low: i128 = i64::MIN as i128;
    let high: i128 = i64::MAX as i128;
    if seconds < low || seconds > high {
        return None;
    }
    let start: i128 = (now as i128) - seconds;
    if start < low || start > high {
        return None;
    }
    Some(start as i64)
}

/// A measured value.
pub struct MetricPoint {
    pub host_id: Option<i64>,
    pub application_id: Option<i64>,
    pub name: String,
    pub value: Double,
    pub ts: i64,
}

/// The tree that shows a measured value.
pub open spec fn metric_tree(point: MetricPoint) -> JsonView {
    JsonView::Object(
        seq![
            ("host_id"@, optional_integer_tree(point.host_id)),
            ("application_id"@, optional_integer_tree(point.application_id)),
            ("name"@, JsonView::Text(point.name@)),
            ("value"@, double_tree(point.value)),
            ("ts"@, integer_tree(point.ts)),
        ],
    )
}

fn metric_json(point: &MetricPoint) -> (json: Json)
    ensures
        json@ == metric_tree(*point),
{
    let mut members = no_members();
    put_member(&mut members, "host_id", optional_integer(point.host_id));
    put_member(&mut members, "application_id", optional_integer(point.application_id));
    put_member(&mut members, "name", text(point.name.as_str()));
    put_member(&mut members, "value", double(point.value));
    put_member(&mut members, "ts", integer(point.ts));
    assert(member_views(members@) =~= metric_tree(*point)->Object_0);
    object(members)
}

/// The trees that show the measured values.
pub open spec fn metric_trees(points: Seq<MetricPoint>) -> Seq<JsonView> {
    points.map_values(|point: MetricPoint| metric_tree(point))
}

fn metric_list(points: &Vec<MetricPoint>) -> (json: Json)
    ensures
        json@ == JsonView::Array(metric_trees(points@)),
{
    let ghost trees = metric_trees(points@);
    let mut items: Vec<Json> = Vec::new();
    let mut i: usize = 0;
    assert(item_views(items@) =~= trees.take(0));
    while i < points.len()
        invariant
            i <= points@.len(),
            trees == metric_trees(points@),
            item_views(items@) == trees.take(i as int),
        decreases points@.len() - i,
    {
        let ghost before = items@;
        let item = metric_json(&points[i]);
        items.push(item);
        assert(item_views(items@) =~= item_views(before).push(item@));
        assert(trees.take(i + 1) =~= trees.take(i as int).push(trees[i as int]));
        i = i + 1;
    }
    assert(trees.take(trees.len() as int) =~= trees);
    array(items)
}

/// The query for the latest value of each metric of each source.
pub open spec fn latest_metrics() -> StatementView {
    StatementView {
        sql: LATEST_METRICS@,
        values: seq![],
    }
}

/// Shows the latest value of each metric: the query to run.
pub fn status() -> (query: Statement)
    ensures
        query@ == latest_metrics(),
{
    let values: Vec<SqlValue> = Vec::new();
    assert(value_views(values@) =~= seq![]);
    statement(LATEST_METRICS, values)
}

/// The answer to a status request.
pub open spec fn status_tree(points: Seq<MetricPoint>) -> JsonView {
    JsonView::Object(seq![("metrics"@, JsonView::Array(metric_trees(points)))])
}

/// Answers a status request with the latest values.
pub fn status_body(points: &Vec<MetricPoint>) -> (body: Json)
    ensures
        body@ == status_tree(points@),
{
    object1("metrics", metric_list(points))
}

/// The query of a metrics request.
pub struct MetricsQuery {
    pub name: Option<String>,
    pub hours: Option<i64>,
    pub host_id: Option<i64>,
    pub application_id: Option<i64>,
}

/// The query for the metrics since `start`, at most a thousand of them, the earliest first.
pub open spec fn metrics_statement(query: MetricsQuery, start: i64) -> StatementView {
    StatementView {
        sql: METRICS@,
        values: seq![
            SqlView::Integer(start),
            optional_text_value(optional_text(query.name)),
            optional_integer_value(query.host_id),
            optional_integer_value(query.application_id),
        ],
    }
}

/// The view of an optional statement.
pub open spec fn optional_statement(query: Option<Statement>) -> Option<StatementView> {
    match query {
        Some(statement) => Some(statement@),
        None => None,
    }
}

/// The query to run at `now`; none where the window's start is out of range.
pub open spec fn metrics_plan(query: MetricsQuery, now: i64) -> Option<StatementView> {
    match window_start(now, hours_or(query.hours, 24)) {
        Some(start) => Some(metrics_statement(query, start)),
        None => None,
    }
}

/// Shows the metrics of the last hours, a day of them where nothing is asked: the query to
/// run at `now`; none where the window's start is out of range.
pub fn metrics_at(query: &MetricsQuery, now: i64) -> (run: Option<Statement>)
    ensures
        optional_statement(run) == metrics_plan(*query, now),
{
    match cutoff(now, query.hours, 24) {
        None => None,
        Some(start) => {
            let mut values: Vec<SqlValue> = Vec::new();
            values.push(SqlValue::Integer(start));
            values.push(text_or_null(&query.name));
            values.push(integer_or_null(query.host_id));
            values.push(integer_or_null(query.application_id));
            assert(value_views(values@) =~= metrics_statement(*query, start).values);
            Some(statement(METRICS, values))
        },
    }
}

/// Shows the metrics of the last hours, a day of them where nothing is asked: the query to
/// run now; none where the window's start is out of range.
pub fn metrics(query: &MetricsQuery) -> (run: Option<Statement>)
    ensures
        exists|now: i64|
            clock_time(now) && optional_statement(run) == #[trigger] metrics_plan(*query, now),
{
    metrics_at(query, utc_seconds())
}

/// The answer to a metrics request.
pub open spec fn metrics_tree(points: Seq<MetricPoint>) -> JsonView {
    JsonView::Object(
        seq![
            ("metrics"@, JsonView::Array(metric_trees(points))),
            ("count"@, JsonView::Number(JsonNumber::PosInt(points.len() as u64))),
        ],
    )
}

/// Answers a metrics request with the values that were found.
pub fn metrics_body(points: &Vec<MetricPoint>) -> (body: Json)
    ensures
        body@ == metrics_tree(points@),
{
    object2("metrics", metric_list(points), "count", count(points.len()))
}

/// The query of a logs request.
pub struct LogsQuery {
    pub source: Option<String>,
    pub hours: Option<i64>,
    pub host_id: Option<i64>,
    pub application_id: Option<i64>,
}

/// A stored log line.
pub struct LogEntry {
    pub host_id: Option<i64>,
    pub application_id: Option<i64>,
    pub source: String,
    pub line: String,
    pub ts: i64,
}

/// The tree that shows a log line.
pub open spec fn log_tree(
    host_id: Option<i64>,
    application_id: Option<i64>,
    source: Seq<char>,
    line: Seq<char>,
    ts: i64,
) -> JsonView {
    JsonView::Object(
        seq![
            ("host_id"@, optional_integer_tree(host_id)),
            ("application_id"@, optional_integer_tree(application_id)),
            ("source"@, JsonView::Text(source)),
            ("line"@, JsonView::Text(line)),
            ("ts"@, integer_tree(ts)),
        ],
    )
}

fn log_json(
    host_id: Option<i64>,
    application_id: Option<i64>,
    source: &str,
    line: &str,
    ts: i64,
) -> (json: Json)
    ensures
        json@ == log_tree(host_id, application_id, source@, line@, ts),
{
    let mut members = no_members();
    put_member(&mut members, "host_id", optional_integer(host_id));
    put_member(&mut members, "application_id", optional_integer(application_id));
    put_member(&mut members, "source", text(source));
    put_member(&mut members, "line", text(line));
    put_member(&mut members, "ts", integer(ts));
    assert(member_views(members@) =~= log_tree(
        host_id,
        application_id,
        source@,
        line@,
        ts,
    )->Object_0);
    object(members)
}

/// The trees that show the log lines.
pub open spec fn log_trees(entries: Seq<LogEntry>) -> Seq<JsonView> {
    entries.map_values(
        |entry: LogEntry|
            log_tree(entry.host_id, entry.application_id, entry.source@, entry.line@, entry.ts),
    )
}

/// The query for the log lines since `start`, at most five hundred of them, the latest first.
pub open spec fn logs_statement(query: LogsQuery, start: i64) -> StatementView {
    StatementView {
        sql: LOGS@,
        values: seq![
            SqlView::Integer(start),
            optional_text_value(optional_text(query.source)),
            optional_integer_value(query.host_id),
            optional_integer_value(query.application_id),
        ],
    }
}

/// The query to run at `now`; none where the window's start is out of range.
pub open spec fn logs_plan(query: LogsQuery, now: i64) -> Option<StatementView> {
    match window_start(now, hours_or(query.hours, 1)) {
        Some(start) => Some(logs_statement(query, start)),
        None => None,
    }
}

/// Shows the log lines of the last hours, of one where nothing is asked: the query to run at
/// `now`; none where the window's start is out of range.
pub fn logs_at(query: &LogsQuery, now: i64) -> (run: Option<Statement>)
    ensures
        optional_statement(run) == logs_plan(*query, now),
{
    match cutoff(now, query.hours, 1) {
        None => None,
        Some(start) => {
            let mut values: Vec<SqlValue> = Vec::new();
            values.push(SqlValue::Integer(start));
            values.push(text_or_null(&query.source));
            values.push(integer_or_null(query.host_id));
            values.push(integer_or_null(query.application_id));
            assert(value_views(values@) =~= logs_statement(*query, start).values);
            Some(statement(LOGS, values))
        },
    }
}

/// Shows the log lines of the last hours, of one where nothing is asked: the query to run
/// now; none where the window's start is out of range.
pub fn logs(query: &LogsQuery) -> (run: Option<Statement>)
    ensures
        exists|now: i64|
            clock_time(now) && optional_statement(run) == #[trigger] logs_plan(*query, now),
{
    logs_at(query, utc_seconds())
}

/// The answer to a logs request.
pub open spec fn logs_tree(entries: Seq<LogEntry>) -> JsonView {
    JsonView::Object(
        seq![
            ("logs"@, JsonView::Array(log_trees(entries))),
            ("count"@, JsonView::Number(JsonNumber::PosInt(entries.len() as u64))),
        ],
    )
}

/// Answers a logs request with the lines that were found.
pub fn logs_body(entries: &Vec<LogEntry>) -> (body: Json)
    ensures
        body@ == logs_tree(entries@),
{
    let ghost trees = log_trees(entries@);
    let mut items: Vec<Json> = Vec::new();
    let mut i: usize = 0;
    assert(item_views(items@) =~= trees.take(0));
    while i < entries.len()
        invariant
            i <= entries@.len(),
            trees == log_trees(entries@),
            item_views(items@) == trees.take(i as int),
        decreases entries@.len() - i,
    {
        let ghost before = items@;
        let entry = &entries[i];
        let item = log_json(
            entry.host_id,
            entry.application_id,
            entry.source.as_str(),
            entry.line.as_str(),
            entry.ts,
        );
        items.push(item);
        assert(item_views(items@) =~= item_views(before).push(item@));
        assert(trees.take(i + 1) =~= trees.take(i as int).push(trees[i as int]));
        i = i + 1;
    }
    assert(trees.take(trees.len() as int) =~= trees);
    object2("logs", array(items), "count", count(entries.len()))
}

/// The query of an alerts request.
pub struct AlertsQuery {
    pub hours: Option<i64>,
    pub host_id: Option<i64>,
    pub application_id: Option<i64>,
}

/// An alert that was triggered, and when it was resolved.
pub struct AlertEvent {
    pub id: i64,
    pub host_id: Option<i64>,
    pub application_id: Option<i64>,
    pub rule_name: String,
    pub metric_name: String,
    pub threshold: Double,
    pub value: Double,
    pub triggered_at: i64,
    pub resolved_at: Option<i64>,
}

/// The tree that shows an alert.
pub open spec fn alert_tree(event: AlertEvent) -> JsonView {
    JsonView::Object(
        seq![
            ("id"@, integer_tree(event.id)),
            ("host_id"@, optional_integer_tree(event.host_id)),
            ("application_id"@, optional_integer_tree(event.application_id)),
            ("rule_name"@, JsonView::Text(event.rule_name@)),
            ("metric_name"@, JsonView::Text(event.metric_name@)),
            ("threshold"@, double_tree(event.threshold)),
            ("value"@, double_tree(event.value)),
            ("triggered_at"@, integer_tree(event.triggered_at)),
            ("resolved_at"@, optional_integer_tree(event.resolved_at)),
        ],
    )
}

fn alert_json(event: &AlertEvent) -> (json: Json)
    ensures
        json@ == alert_tree(*event),
{
    let mut members = no_members();
    put_member(&mut members, "id", integer(event.id));
    put_member(&mut members, "host_id", optional_integer(event.host_id));
    put_member(&mut members, "application_id", optional_integer(event.application_id));
    put_member(&mut members, "rule_name", text(event.rule_name.as_str()));
    put_member(&mut members, "metric_name", text(event.metric_name.as_str()));
    put_member(&mut members, "threshold", double(event.threshold));
    put_member(&mut members, "value", double(event.value));
    put_member(&mut members, "triggered_at", integer(event.triggered_at));
    put_member(&mut members, "resolved_at", optional_integer(event.resolved_at));
    assert(member_views(members@) =~= alert_tree(*event)->Object_0);
    object(members)
}

/// The trees that show the alerts.
pub open spec fn alert_trees(events: Seq<AlertEvent>) -> Seq<JsonView> {
    events.map_values(|event: AlertEvent| alert_tree(event))
}

/// How many of the alerts are not resolved.
pub open spec fn active_alerts(events: Seq<AlertEvent>) -> nat {
    events.filter(|event: AlertEvent| event.resolved_at is None).len()
}

/// The query for the alerts that were triggered since `start` or are not resolved, the latest
/// first.
pub open spec fn alerts_statement(query: AlertsQuery, start: i64) -> StatementView {
    StatementView {
        sql: ALERTS@,
        values: seq![
            SqlView::Integer(start),
            optional_integer_value(query.host_id),
            optional_integer_value(query.application_id),
        ],
    }
}

/// The query to run at `now`; none where the window's start is out of range.
pub open spec fn alerts_plan(query: AlertsQuery, now: i64) -> Option<StatementView> {
    match window_start(now, hours_or(query.hours, 24)) {
        Some(start) => Some(alerts_statement(query, start)),
        None => None,
    }
}

/// Shows the alerts of the last hours, a day of them where nothing is asked, and those that
/// are not resolved: the query to run at `now`; none where the window's start is out of range.
pub fn alerts_at(query: &AlertsQuery, now: i64) -> (run: Option<Statement>)
    ensures
        optional_statement(run) == alerts_plan(*query, now),
{
    match cutoff(now, query.hours, 24) {
        None => None,
        Some(start) => {
            let mut values: Vec<SqlValue> = Vec::new();
            values.push(SqlValue::Integer(start));
            values.push(integer_or_null(query.host_id));
            values.push(integer_or_null(query.application_id));
            assert(value_views(values@) =~= alerts_statement(*query, start).values);
            Some(statement(ALERTS, values))
        },
    }
}

/// Shows the alerts of the last hours, a day of them where nothing is asked, and those that
/// are not resolved: the query to run now; none where the window's start is out of range.
pub fn alerts(query: &AlertsQuery) -> (run: Option<Statement>)
    ensures
        exists|now: i64|
            clock_time(now) && optional_statement(run) == #[trigger] alerts_plan(*query, now),
{
    alerts_at(query, utc_seconds())
}

/// The answer to an alerts request.
pub open spec fn alerts_tree(events: Seq<AlertEvent>) -> JsonView {
    JsonView::Object(
        seq![
            ("alerts"@, JsonView::Array(alert_trees(events))),
            ("active"@, JsonView::Number(JsonNumber::PosInt(active_alerts(events) as u64))),
            ("total"@, JsonView::Number(JsonNumber::PosInt(events.len() as u64))),
        ],
    )
}

/// Answers an alerts request with the alerts that were found.
pub fn alerts_body(events: &Vec<AlertEvent>) -> (body: Json)
    ensures
        body@ == alerts_tree(events@),
{
    let ghost trees = alert_trees(events@);
    let ghost open = |event: AlertEvent| event.resolved_at is None;
    let mut items: Vec<Json> = Vec::new();
    let mut active: usize = 0;
    let mut i: usize = 0;
    proof {
        reveal(Seq::filter);
        assert(item_views(items@) =~= trees.take(0));
        assert(events@.take(0).filter(open).len() == 0);
    }
    while i < events.len()
        invariant
            i <= events@.len(),
            active <= i,
            trees == alert_trees(events@),
            open == (|event: AlertEvent| event.resolved_at is None),
            item_views(items@) == trees.take(i as int),
            active == events@.take(i as int).filter(open).len(),
        decreases events@.len() - i,
    {
        let ghost before = items@;
        let item = alert_json(&events[i]);
        items.push(item);
        proof {
            reveal(Seq::filter);
            assert(item_views(items@) =~= item_views(before).push(item@));
            assert(trees.take(i + 1) =~= trees.take(i as int).push(trees[i as int]));
            assert(events@.take(i + 1).drop_last() =~= events@.take(i as int));
            assert(events@.take(i + 1).last() == events@[i as int]);
        }
        if events[i].resolved_at.is_none() {
            active = active + 1;
        }
        i = i + 1;
    }
    assert(trees.take(trees.len() as int) =~= trees);
    assert(events@.take(events@.len() as int) =~= events@);
    let mut members = no_members();
    put_member(&mut members, "alerts", array(items));
    put_member(&mut members, "active", count(active));
    put_member(&mut members, "total", count(events.len()));
    assert(member_views(members@) =~= seq![
        ("alerts"@, JsonView::Array(alert_trees(events@))),
        ("active"@, JsonView::Number(JsonNumber::PosInt(active_alerts(events@) as u64))),
        ("total"@, JsonView::Number(JsonNumber::PosInt(events@.len() as u64))),
    ]);
    object(members)
}

/// A log line that another application ships.
pub struct IngestLine {
    pub source: String,
    pub line: String,
    pub ts: Option<i64>,
    pub host_id: Option<i64>,
    pub application_id: Option<i64>,
}

/// The mathematical value of an [`IngestLine`].
pub struct IngestLineView {
    pub source: Seq<char>,
    pub line: Seq<char>,
    pub ts: Option<i64>,
    pub host_id: Option<i64>,
    pub application_id: Option<i64>,
}

impl View for IngestLine {
    type V = IngestLineView;

    open spec fn view(&self) -> IngestLineView {
        IngestLineView {
            source: self.source@,
            line: self.line@,
            ts: self.ts,
            host_id: self.host_id,
            application_id: self.application_id,
        }
    }
}

/// The log lines that another application ships.
pub struct IngestBody {
    pub logs: Vec<IngestLine>,
}

/// The views of a list of log lines.
pub open spec fn line_views(lines: Seq<IngestLine>) -> Seq<IngestLineView> {
    lines.map_values(|line: IngestLine| line@)
}

impl View for IngestBody {
    type V = Seq<IngestLineView>;

    open spec fn view(&self) -> Seq<IngestLineView> {
        line_views(self.logs@)
    }
}

/// Whether two byte strings are equal. Where they have one length, every byte is looked at.
pub fn ct_eq(a: &[u8], b: &[u8]) -> (same: bool)
    ensures
        same == (a@ == b@),
{
    if a.len() != b.len() {
        return false;
    }
    let mut diff: u8 = 0;
    let mut i: usize = 0;
    while i < a.len()
        invariant
            i <= a@.len(),
            a@.len() == b@.len(),
            diff == 0 <==> forall|j: int| 0 <= j < i ==> a@[j] == b@[j],
        decreases a@.len() - i,
    {
        let x: u8 = a[i];
        let y: u8 = b[i];
        assert((diff | (x ^ y)) == 0 <==> diff == 0 && x == y) by (bit_vector);
        diff = diff | (x ^ y);
        i = i + 1;
    }
    proof {
        if diff == 0 {
            assert(a@ =~= b@);
        }
    }
    diff == 0
}

/// The token that a request brings: the bearer token that it is authorized with, or else the
/// one in the header for ingest tokens.
pub open spec fn provided_token(
    authorization: Option<Seq<char>>,
    ingest_header: Option<Seq<char>>,
) -> Option<Seq<char>> {
    if authorization is Some && "Bearer "@.is_prefix_of(authorization->0) {
        Some(authorization->0.skip("Bearer "@.len() as int))
    } else {
        ingest_header
    }
}

/// Whether a request brings the token.
fn brings_token(
    token: &str,
    authorization: &Option<String>,
    ingest_header: &Option<String>,
) -> (brings: bool)
    ensures
        brings == (provided_token(optional_text(*authorization), optional_text(*ingest_header))
            == Some(token@)),
{
    if let Some(value) = authorization {
        if let Some(provided) = without_prefix(value.as_str(), "Bearer ") {
            let same = ct_eq(provided.as_str().as_bytes(), token.as_bytes());
            proof {
                encode_utf8_decode_utf8(provided@);
                encode_utf8_decode_utf8(token@);
            }
            return same;
        }
    }
    match ingest_header {
        Some(provided) => {
            let same = ct_eq(provided.as_str().as_bytes(), token.as_bytes());
            proof {
                encode_utf8_decode_utf8(provided@);
                encode_utf8_decode_utf8(token@);
            }
            same
        },
        None => false,
    }
}

/// The answer to shipped log lines: a status with a plain text, or a tree.
#[derive(Debug, PartialEq)]
pub enum IngestReply {
    Text(u16, &'static str),
    Tree(Json),
}

/// The mathematical value of an [`IngestReply`].
#[verifier::ext_equal]
pub enum IngestReplyView {
    Text(u16, Seq<char>),
    Tree(JsonView),
}

impl View for IngestReply {
    type V = IngestReplyView;

    open spec fn view(&self) -> IngestReplyView {
        match self {
            IngestReply::Text(status, message) => IngestReplyView::Text(*status, message@),
            IngestReply::Tree(tree) => IngestReplyView::Tree(tree@),
        }
    }
}

/// What shipped log lines call for next.
#[derive(Debug, PartialEq)]
pub enum IngestStep {
    /// Answer the request.
    Reply(IngestReply),
    /// Count the applications with which the line at this place is attributed.
    CountOwners(usize, Statement),
    /// Store the lines.
    Store,
}

/// The mathematical value of an [`IngestStep`].
#[verifier::ext_equal]
pub enum IngestStepView {
    Reply(IngestReplyView),
    CountOwners(int, StatementView),
    Store,
}

impl View for IngestStep {
    type V = IngestStepView;

    open spec fn view(&self) -> IngestStepView {
        match self {
            IngestStep::Reply(reply) => IngestStepView::Reply(reply@),
            IngestStep::CountOwners(at, statement) => IngestStepView::CountOwners(
                *at as int,
                statement@,
            ),
            IngestStep::Store => IngestStepView::Store,
        }
    }
}

/// The tree that tells how many lines were stored.
pub open spec fn inserted_tree(n: nat) -> JsonView {
    JsonView::Object(seq![("inserted"@, JsonView::Number(JsonNumber::PosInt(n as u64)))])
}

/// The query that counts the applications with this id on this host.
pub open spec fn owner_statement(application_id: i64, host_id: i64) -> StatementView {
    StatementView {
        sql: OWNERS@,
        values: seq![SqlView::Integer(application_id), SqlView::Integer(host_id)],
    }
}

fn owner_query(application_id: i64, host_id: i64) -> (query: Statement)
    ensures
        query@ == owner_statement(application_id, host_id),
{
    let mut values: Vec<SqlValue> = Vec::new();
    values.push(SqlValue::Integer(application_id));
    values.push(SqlValue::Integer(host_id));
    assert(value_views(values@) =~= owner_statement(application_id, host_id).values);
    statement(OWNERS, values)
}

/// The refusal of a line whose application is not on its host.
pub open spec fn wrong_owner() -> IngestStepView {
    IngestStepView::Reply(IngestReplyView::Text(400, "application does not belong to host"@))
}

/// What the lines from `from` on call for: the first of them that names an application and a
/// host is looked up, and one that names an application without a host is refused. Where there
/// is neither, the lines are stored.
pub open spec fn scan_step(lines: Seq<IngestLineView>, from: int) -> IngestStepView
    decreases lines.len() - from,
{
    if from < 0 || from >= lines.len() {
        IngestStepView::Store
    } else {
        match lines[from].application_id {
            None => scan_step(lines, from + 1),
            Some(application_id) => match lines[from].host_id {
                None => wrong_owner(),
                Some(host_id) => IngestStepView::CountOwners(
                    from,
                    owner_statement(application_id, host_id),
                ),
            },
        }
    }
}

fn scan(body: &IngestBody, from: usize) -> (step: IngestStep)
    requires
        from <= body@.len(),
    ensures
        step@ == scan_step(body@, from as int),
{
    let mut i: usize = from;
    while i < body.logs.len()
        invariant
            from <= i <= body@.len(),
            scan_step(body@, from as int) == scan_step(body@, i as int),
        decreases body@.len() - i,
    {
        let line = &body.logs[i];
        assert(line@ == body@[i as int]);
        if let Some(application_id) = line.application_id {
            return match line.host_id {
                None => IngestStep::Reply(
                    IngestReply::Text(400, "application does not belong to host"),
                ),
                Some(host_id) => IngestStep::CountOwners(i, owner_query(application_id, host_id)),
            };
        }
        i = i + 1;
    }
    IngestStep::Store
}

/// The first step of taking log lines in: the token is held against the one that is set up,
/// and then the lines are looked at.
pub open spec fn ingest_step(
    token: Seq<char>,
    authorization: Option<Seq<char>>,
    ingest_header: Option<Seq<char>>,
    lines: Seq<IngestLineView>,
) -> IngestStepView {
    if token.len() == 0 {
        IngestStepView::Reply(IngestReplyView::Text(503, "ingest disabled"@))
    } else if provided_token(authorization, ingest_header) != Some(token) {
        IngestStepView::Reply(IngestReplyView::Text(401, "invalid ingest token"@))
    } else if lines.len() == 0 {
        IngestStepView::Reply(IngestReplyView::Tree(inserted_tree(0)))
    } else {
        scan_step(lines, 0)
    }
}

/// Takes log lines in that another application ships, with the texts of the request's
/// `Authorization` and `x-ingest-token` headers.
pub fn ingest(
    token: &str,
    authorization: &Option<String>,
    ingest_header: &Option<String>,
    body: &IngestBody,
) -> (step: IngestStep)
    ensures
        step@ == ingest_step(
            token@,
            optional_text(*authorization),
            optional_text(*ingest_header),
            body@,
        ),
{
    if token.is_empty() {
        return IngestStep::Reply(IngestReply::Text(503, "ingest disabled"));
    }
    if !brings_token(token, authorization, ingest_header) {
        return IngestStep::Reply(IngestReply::Text(401, "invalid ingest token"));
    }
    if body.logs.len() == 0 {
        return IngestStep::Reply(IngestReply::Tree(object1("inserted", count(0))));
    }
    scan(body, 0)
}

/// The step once the owners of the line at `at` are counted. A count that could not be read
/// stands for zero.
pub open spec fn counted_step(lines: Seq<IngestLineView>, at: int, owners: Option<i64>) -> IngestStepView {
    if owners is None || owners->0 == 0 {
        wrong_owner()
    } else {
        scan_step(lines, at + 1)
    }
}

/// The step once the owners of the line at `at` are counted; none where they could not be.
pub fn owners_counted(body: &IngestBody, at: usize, owners: Option<i64>) -> (step: IngestStep)
    requires
        at < body@.len(),
    ensures
        step@ == counted_step(body@, at as int, owners),
{
    let found = match owners {
        Some(n) => n != 0,
        None => false,
    };
    if !found {
        return IngestStep::Reply(IngestReply::Text(400, "application does not belong to host"));
    }
    assert(at < body.logs.len());
    scan(body, at + 1)
}

/// The time of a line: the one that it brings, or else `now`.
pub open spec fn line_time(line: IngestLineView, now: i64) -> i64 {
    match line.ts {
        Some(ts) => ts,
        None => now,
    }
}

/// The statement that stores a line.
pub open spec fn line_statement(line: IngestLineView, now: i64) -> StatementView {
    StatementView {
        sql: STORE_LINE@,
        values: seq![
            optional_integer_value(line.host_id),
            optional_integer_value(line.application_id),
            SqlView::Text(line.source),
            SqlView::Text(line.line),
            SqlView::Integer(line_time(line, now)),
        ],
    }
}

/// The statements that store the lines, in order.
pub open spec fn line_statements(lines: Seq<IngestLineView>, now: i64) -> Seq<StatementView> {
    lines.map_values(|line: IngestLineView| line_statement(line, now))
}

/// The statements that store the lines in one transaction at `now`.
pub fn store_lines_at(body: &IngestBody, now: i64) -> (statements: Vec<Statement>)
    ensures
        statement_views(statements@) == line_statements(body@, now),
{
    let ghost wanted = line_statements(body@, now);
    let mut statements: Vec<Statement> = Vec::new();
    let mut i: usize = 0;
    assert(statement_views(statements@) =~= wanted.take(0));
    while i < body.logs.len()
        invariant
            i <= body@.len(),
            wanted == line_statements(body@, now),
            statement_views(statements@) == wanted.take(i as int),
        decreases body@.len() - i,
    {
        let ghost before = statements@;
        let line = &body.logs[i];
        let ts: i64 = match line.ts {
            Some(ts) => ts,
            None => now,
        };
        let mut values: Vec<SqlValue> = Vec::new();
        values.push(integer_or_null(line.host_id));
        values.push(integer_or_null(line.application_id));
        values.push(text_value(line.source.as_str()));
        values.push(text_value(line.line.as_str()));
        values.push(SqlValue::Integer(ts));
        assert(line@ == body@[i as int]);
        assert(value_views(values@) =~= line_statement(line@, now).values);
        let item = statement(STORE_LINE, values);
        statements.push(item);
        assert(statement_views(statements@) =~= statement_views(before).push(item@));
        assert(wanted.take(i + 1) =~= wanted.take(i as int).push(wanted[i as int]));
        i = i + 1;
    }
    assert(wanted.take(wanted.len() as int) =~= wanted);
    statements
}

/// The statements that store the lines in one transaction now, and the time that they take
/// for now.
pub fn store_lines(body: &IngestBody) -> (stored: (i64, Vec<Statement>))
    ensures
        clock_time(stored.0),
        statement_views(stored.1@) == line_statements(body@, stored.0),
{
    let now = utc_seconds();
    let statements = store_lines_at(body, now);
    (now, statements)
}

/// The trees that show the lines to live views.
pub open spec fn line_trees(lines: Seq<IngestLineView>, now: i64) -> Seq<JsonView> {
    lines.map_values(
        |line: IngestLineView|
            log_tree(
                line.host_id,
                line.application_id,
                line.source,
                line.line,
                line_time(line, now),
            ),
    )
}

/// The data of the live event that shows the lines.
pub open spec fn live_tree(lines: Seq<IngestLineView>, now: i64) -> JsonView {
    JsonView::Object(seq![("logs"@, JsonView::Array(line_trees(lines, now)))])
}

/// The data of the live event that shows the lines.
pub fn live_lines(body: &IngestBody, now: i64) -> (data: Json)
    ensures
        data@ == live_tree(body@, now),
{
    let ghost trees = line_trees(body@, now);
    let mut items: Vec<Json> = Vec::new();
    let mut i: usize = 0;
    assert(item_views(items@) =~= trees.take(0));
    while i < body.logs.len()
        invariant
            i <= body@.len(),
            trees == line_trees(body@, now),
            item_views(items@) == trees.take(i as int),
        decreases body@.len() - i,
    {
        let ghost before = items@;
        let line = &body.logs[i];
        assert(line@ == body@[i as int]);
        let ts: i64 = match line.ts {
            Some(ts) => ts,
            None => now,
        };
        let item = log_json(
            line.host_id,
            line.application_id,
            line.source.as_str(),
            line.line.as_str(),
            ts,
        );
        items.push(item);
        assert(item_views(items@) =~= item_views(before).push(item@));
        assert(trees.take(i + 1) =~= trees.take(i as int).push(trees[i as int]));
        i = i + 1;
    }
    assert(trees.take(trees.len() as int) =~= trees);
    object1("logs", array(items))
}

/// The answer once the lines are stored, or could not be.
pub open spec fn stored_reply(lines: Seq<IngestLineView>, success: bool) -> IngestReplyView {
    if success {
        IngestReplyView::Tree(inserted_tree(lines.len()))
    } else {
        IngestReplyView::Text(500, "failed to store logs"@)
    }
}

/// The answer once the lines are stored, or could not be.
pub fn stored(body: &IngestBody, success: bool) -> (reply: IngestReply)
    ensures
        reply@ == stored_reply(body@, success),
{
    if success {
        IngestReply::Tree(object1("inserted", count(body.logs.len())))
    } else {
        IngestReply::Text(500, "failed to store logs")
    }
}

/// Log lines are looked at only where a token is set up and the request brings that token.
pub proof fn law_ingest_needs_the_token(
    token: Seq<char>,
    authorization: Option<Seq<char>>,
    ingest_header: Option<Seq<char>>,
    lines: Seq<IngestLineView>,
)
    requires
        token.len() == 0 || provided_token(authorization, ingest_header) != Some(token),
    ensures
        ingest_step(token, authorization, ingest_header, lines) == IngestStepView::Reply(
            if token.len() == 0 {
                IngestReplyView::Text(503, "ingest disabled"@)
            } else {
                IngestReplyView::Text(401, "invalid ingest token"@)
            },
        ),
{
}

/// Live views show each line as it is stored: with the values that its statement binds.
pub proof fn law_live_lines_show_what_is_stored(lines: Seq<IngestLineView>, now: i64, i: int)
    requires
        0 <= i < lines.len(),
    ensures
        line_statements(lines, now).len() == lines.len(),
        line_trees(lines, now).len() == lines.len(),
        line_statements(lines, now)[i].values == seq![
            optional_integer_value(lines[i].host_id),
            optional_integer_value(lines[i].application_id),
            SqlView::Text(lines[i].source),
            SqlView::Text(lines[i].line),
            SqlView::Integer(line_time(lines[i], now)),
        ],
        line_trees(lines, now)[i] == log_tree(
            lines[i].host_id,
            lines[i].application_id,
            lines[i].source,
            lines[i].line,
            line_time(lines[i], now),
        ),
{
}

/// A line is attributed rightly: to no application, or to one that is on its host by the count
/// of such applications.
pub open spec fn rightly_attributed(
    line: IngestLineView,
    owners: spec_fn(i64, i64) -> Option<i64>,
) -> bool {
    match line.application_id {
        None => true,
        Some(application_id) => match line.host_id {
            None => false,
            Some(host_id) => owners(application_id, host_id) is Some && owners(
                application_id,
                host_id,
            )->0 != 0,
        },
    }
}

/// What a step comes to in the end, where the counts of owners are as given: the lines are
/// stored, or an answer is given.
pub open spec fn ingested(
    lines: Seq<IngestLineView>,
    owners: spec_fn(i64, i64) -> Option<i64>,
    step: IngestStepView,
    from: int,
) -> IngestStepView
    decreases lines.len() - from,
{
    match step {
        IngestStepView::CountOwners(at, _) => if from <= at < lines.len() {
            let count = owners(lines[at].application_id->0, lines[at].host_id->0);
            ingested(lines, owners, counted_step(lines, at, count), at + 1)
        } else {
            step
        },
        _ => step,
    }
}

proof fn lemma_scan_ingested(
    lines: Seq<IngestLineView>,
    owners: spec_fn(i64, i64) -> Option<i64>,
    from: int,
    at: int,
)
    requires
        0 <= from <= at <= lines.len(),
    ensures
        ingested(lines, owners, scan_step(lines, at), from) == if forall|i: int|
            at <= i < lines.len() ==> rightly_attributed(#[trigger] lines[i], owners) {
            IngestStepView::Store
        } else {
            wrong_owner()
        },
    decreases lines.len() - at,
{
    if at < lines.len() {
        let line = lines[at];
        if line.application_id is None {
            lemma_scan_ingested(lines, owners, from, at + 1);
            assert(rightly_attributed(lines[at], owners));
        } else if line.host_id is Some {
            lemma_scan_ingested(lines, owners, at + 1, at + 1);
            let count = owners(line.application_id->0, line.host_id->0);
            assert(scan_step(lines, at) is CountOwners);
            assert(ingested(lines, owners, scan_step(lines, at), from) == ingested(
                lines,
                owners,
                counted_step(lines, at, count),
                at + 1,
            ));
            if !(count is Some && count->0 != 0) {
                assert(!rightly_attributed(lines[at], owners));
            }
        } else {
            assert(!rightly_attributed(lines[at], owners));
        }
    }
}

/// Log lines that come with the token are stored exactly when each of them is attributed
/// rightly; otherwise all of them are refused.
pub proof fn law_lines_are_stored_where_all_are_rightly_attributed(
    token: Seq<char>,
    authorization: Option<Seq<char>>,
    ingest_header: Option<Seq<char>>,
    lines: Seq<IngestLineView>,
    owners: spec_fn(i64, i64) -> Option<i64>,
)
    requires
        token.len() > 0,
        provided_token(authorization, ingest_header) == Some(token),
        lines.len() > 0,
    ensures
        ingested(
            lines,
            owners,
            ingest_step(token, authorization, ingest_header, lines),
            0,
        ) == if forall|i: int|
            0 <= i < lines.len() ==> rightly_attributed(#[trigger] lines[i], owners) {
            IngestStepView::Store
        } else {
            wrong_owner()
        },
{
    lemma_scan_ingested(lines, owners, 0, 0);
}

/// A window ends now and is as long as was asked, by the hour; where nothing is asked it has the
/// default length. It is refused only where its length or its start is out of range.
pub proof fn law_windows_end_now(now: i64, hours: Option<i64>, default: i64)
    ensures
        ({
            let length = hours_or(hours, default);
            let start = window_start(now, length);
            &&& hours is Some ==> length == hours->0
            &&& hours is None ==> length == default
            &&& start is Some ==> start->0 + length * 60 * 60 == now
            &&& start is None ==> length * 3600 > 0x7fff_ffff_ffff_ffff || length * 3600
                < -0x8000_0000_0000_0000 || now - length * 3600 > 0x7fff_ffff_ffff_ffff || now
                - length * 3600 < -0x8000_0000_0000_0000
        }),
{
}

/// Where nothing is asked, metrics and alerts are shown for a day and logs for an hour.
pub proof fn law_default_windows(
    metrics: MetricsQuery,
    logs: LogsQuery,
    alerts: AlertsQuery,
    now: i64,
)
    ensures
        metrics.hours is None ==> metrics_plan(metrics, now) == metrics_plan(
            MetricsQuery { hours: Some(24), ..metrics },
            now,
        ),
        logs.hours is None ==> logs_plan(logs, now) == logs_plan(
            LogsQuery { hours: Some(1), ..logs },
            now,
        ),
        alerts.hours is None ==> alerts_plan(alerts, now) == alerts_plan(
            AlertsQuery { hours: Some(24), ..alerts },
            now,
        ),
{
}

/// A value is bound as itself where it is asked for, and as null where it is not.
pub open spec fn binds(value: SqlView, asked: Option<i64>) -> bool {
    (asked is Some ==> value == SqlView::Integer(asked->0)) && (asked is None ==> value
        == SqlView::Null)
}

/// A metrics request is narrowed by its window, its metric, its host and its application, each at
/// its own placeholder.
pub proof fn law_metrics_are_narrowed_as_asked(query: MetricsQuery, now: i64)
    requires
        query.hours is Some,
    ensures
        metrics_plan(query, now) matches Some(run) ==> {
            &&& run.sql
                == "SELECT host_id, application_id, name, value, ts FROM metrics WHERE ts >= ?1 AND (?2 IS NULL OR name = ?2) AND (?3 IS NULL OR host_id = ?3) AND (?4 IS NULL OR application_id = ?4) ORDER BY ts LIMIT 1000"@
            &&& run.values.len() == 4
            &&& run.values[0] is Integer
            &&& run.values[0]->Integer_0 + query.hours->0 * 3600 == now
            &&& query.name matches Some(name) ==> run.values[1] == SqlView::Text(name@)
            &&& query.name is None ==> run.values[1] == SqlView::Null
            &&& binds(run.values[2], query.host_id)
            &&& binds(run.values[3], query.application_id)
        },
        metrics_plan(query, now) is None <==> window_start(now, query.hours->0) is None,
{
}

/// A logs request is narrowed by its window, its source, its host and its application, each at
/// its own placeholder.
pub proof fn law_logs_are_narrowed_as_asked(query: LogsQuery, now: i64)
    requires
        query.hours is Some,
    ensures
        logs_plan(query, now) matches Some(run) ==> {
            &&& run.sql
                == "SELECT host_id, application_id, source, line, ts FROM logs WHERE ts >= ?1 AND (?2 IS NULL OR source = ?2) AND (?3 IS NULL OR host_id = ?3) AND (?4 IS NULL OR application_id = ?4) ORDER BY ts DESC LIMIT 500"@
            &&& run.values.len() == 4
            &&& run.values[0] is Integer
            &&& run.values[0]->Integer_0 + query.hours->0 * 3600 == now
            &&& query.source matches Some(source) ==> run.values[1] == SqlView::Text(source@)
            &&& query.source is None ==> run.values[1] == SqlView::Null
            &&& binds(run.values[2], query.host_id)
            &&& binds(run.values[3], query.application_id)
        },
        logs_plan(query, now) is None <==> window_start(now, query.hours->0) is None,
{
}

/// An alerts request is narrowed by its window, its host and its application, each at its own
/// placeholder.
pub proof fn law_alerts_are_narrowed_as_asked(query: AlertsQuery, now: i64)
    requires
        query.hours is Some,
    ensures
        alerts_plan(query, now) matches Some(run) ==> {
            &&& run.sql
                == "SELECT e.id, r.host_id, r.application_id, r.name, r.metric_name, r.threshold, e.value, e.triggered_at, e.resolved_at FROM alert_events e JOIN alert_rules r ON e.rule_id = r.id WHERE (e.triggered_at >= ?1 OR e.resolved_at IS NULL) AND (?2 IS NULL OR r.host_id = ?2) AND (?3 IS NULL OR r.application_id = ?3) ORDER BY e.triggered_at DESC"@
            &&& run.values.len() == 3
            &&& run.values[0] is Integer
            &&& run.values[0]->Integer_0 + query.hours->0 * 3600 == now
            &&& binds(run.values[1], query.host_id)
            &&& binds(run.values[2], query.application_id)
        },
        alerts_plan(query, now) is None <==> window_start(now, query.hours->0) is None,
        latest_metrics().values.len() == 0,
        latest_metrics().sql
            == "SELECT host_id, application_id, name, value, ts FROM metrics WHERE id IN (SELECT MAX(id) FROM metrics GROUP BY host_id, application_id, name) ORDER BY host_id, application_id, name"@,
{
}

/// The object that shows a measured value holds each of its fields under the field's own name.
pub proof fn law_metrics_are_shown_by_name(point: MetricPoint)
    ensures
        ({
            let tree = metric_tree(point);
            &&& under(tree, "host_id"@) == Some(optional_integer_tree(point.host_id))
            &&& under(tree, "application_id"@) == Some(optional_integer_tree(point.application_id))
            &&& under(tree, "name"@) == Some(JsonView::Text(point.name@))
            &&& under(tree, "value"@) == Some(double_tree(point.value))
            &&& under(tree, "ts"@) == Some(integer_tree(point.ts))
            &&& tree->Object_0.len() == 5
        }),
{
    reveal_strlit("host_id");
    reveal_strlit("application_id");
    reveal_strlit("name");
    reveal_strlit("value");
    reveal_strlit("ts");
    assert("host_id"@.len() == 7);
    assert("application_id"@.len() == 14);
    assert("name"@.len() == 4);
    assert("value"@.len() == 5);
    assert("ts"@.len() == 2);
    let members = metric_tree(point)->Object_0;
    assert(members[0].0 == "host_id"@);
    assert(members[1].0 == "application_id"@);
    assert(members[2].0 == "name"@);
    assert(members[3].0 == "value"@);
    assert(members[4].0 == "ts"@);
    lemma_member(members, 0);
    lemma_member(members, 1);
    lemma_member(members, 2);
    lemma_member(members, 3);
    lemma_member(members, 4);
}

/// The object that shows a log line holds each of its parts under the part's own name.
pub proof fn law_log_lines_are_shown_by_name(
    host_id: Option<i64>,
    application_id: Option<i64>,
    source: Seq<char>,
    line: Seq<char>,
    ts: i64,
)
    ensures
        ({
            let tree = log_tree(host_id, application_id, source, line, ts);
            &&& under(tree, "host_id"@) == Some(optional_integer_tree(host_id))
            &&& under(tree, "application_id"@) == Some(optional_integer_tree(application_id))
            &&& under(tree, "source"@) == Some(JsonView::Text(source))
            &&& under(tree, "line"@) == Some(JsonView::Text(line))
            &&& under(tree, "ts"@) == Some(integer_tree(ts))
            &&& tree->Object_0.len() == 5
        }),
{
    reveal_strlit("host_id");
    reveal_strlit("application_id");
    reveal_strlit("source");
    reveal_strlit("line");
    reveal_strlit("ts");
    assert("host_id"@.len() == 7);
    assert("application_id"@.len() == 14);
    assert("source"@.len() == 6);
    assert("line"@.len() == 4);
    assert("ts"@.len() == 2);
    let members = log_tree(host_id, application_id, source, line, ts)->Object_0;
    assert(members[0].0 == "host_id"@);
    assert(members[1].0 == "application_id"@);
    assert(members[2].0 == "source"@);
    assert(members[3].0 == "line"@);
    assert(members[4].0 == "ts"@);
    lemma_member(members, 0);
    lemma_member(members, 1);
    lemma_member(members, 2);
    lemma_member(members, 3);
    lemma_member(members, 4);
}

/// The object that shows an alert holds each of its fields under the field's own name.
pub proof fn law_alerts_are_shown_by_name(event: AlertEvent)
    ensures
        ({
            let tree = alert_tree(event);
            &&& under(tree, "id"@) == Some(integer_tree(event.id))
            &&& under(tree, "host_id"@) == Some(optional_integer_tree(event.host_id))
            &&& under(tree, "application_id"@) == Some(optional_integer_tree(event.application_id))
            &&& under(tree, "rule_name"@) == Some(JsonView::Text(event.rule_name@))
            &&& under(tree, "metric_name"@) == Some(JsonView::Text(event.metric_name@))
            &&& under(tree, "threshold"@) == Some(double_tree(event.threshold))
            &&& under(tree, "value"@) == Some(double_tree(event.value))
            &&& under(tree, "triggered_at"@) == Some(integer_tree(event.triggered_at))
            &&& under(tree, "resolved_at"@) == Some(optional_integer_tree(event.resolved_at))
            &&& tree->Object_0.len() == 9
        }),
{
    reveal_strlit("id");
    reveal_strlit("host_id");
    reveal_strlit("application_id");
    reveal_strlit("rule_name");
    reveal_strlit("metric_name");
    reveal_strlit("threshold");
    reveal_strlit("value");
    reveal_strlit("triggered_at");
    reveal_strlit("resolved_at");
    assert("id"@.len() == 2);
    assert("host_id"@.len() == 7);
    assert("application_id"@.len() == 14);
    assert("rule_name"@.len() == 9);
    assert("metric_name"@.len() == 11);
    assert("threshold"@.len() == 9);
    assert("value"@.len() == 5);
    assert("triggered_at"@.len() == 12);
    assert("resolved_at"@.len() == 11);
    assert("rule_name"@[0] != "threshold"@[0]);
    assert("metric_name"@[0] != "resolved_at"@[0]);
    let members = alert_tree(event)->Object_0;
    assert(members[0].0 == "id"@);
    assert(members[1].0 == "host_id"@);
    assert(members[2].0 == "application_id"@);
    assert(members[3].0 == "rule_name"@);
    assert(members[4].0 == "metric_name"@);
    assert(members[5].0 == "threshold"@);
    assert(members[6].0 == "value"@);
    assert(members[7].0 == "triggered_at"@);
    assert(members[8].0 == "resolved_at"@);
    lemma_member(members, 0);
    lemma_member(members, 1);
    lemma_member(members, 2);
    lemma_member(members, 3);
    lemma_member(members, 4);
    lemma_member(members, 5);
    lemma_member(members, 6);
    lemma_member(members, 7);
    lemma_member(members, 8);
}

/// The service says what it is, that it is up, and its version.
pub proof fn law_health_tells_the_version(version: Seq<char>)
    ensures
        under(health_tree(version), "app"@) == Some(JsonView::Text("akurai-monitor"@)),
        under(health_tree(version), "status"@) == Some(JsonView::Text("ok"@)),
        under(health_tree(version), "version"@) == Some(JsonView::Text(version)),
{
    reveal_strlit("app");
    reveal_strlit("status");
    reveal_strlit("version");
    assert("app"@.len() == 3);
    assert("status"@.len() == 6);
    assert("version"@.len() == 7);
    let members = health_tree(version)->Object_0;
    assert(members[0].0 == "app"@);
    assert(members[1].0 == "status"@);
    assert(members[2].0 == "version"@);
    lemma_member(members, 0);
    lemma_member(members, 1);
    lemma_member(members, 2);
}

/// What was found is shown, all of it and in its order, and counted.
pub proof fn law_what_was_found_is_shown_and_counted(
    points: Seq<MetricPoint>,
    entries: Seq<LogEntry>,
    events: Seq<AlertEvent>,
    i: int,
)
    ensures
        ({
            let latest = under(status_tree(points), "metrics"@);
            let shown = under(metrics_tree(points), "metrics"@);
            &&& latest == shown && shown is Some && shown->0 is Array
            &&& shown->0->Array_0.len() == points.len()
            &&& 0 <= i < points.len() ==> shown->0->Array_0[i] == metric_tree(points[i])
            &&& under(metrics_tree(points), "count"@) == Some(
                JsonView::Number(JsonNumber::PosInt(points.len() as u64)),
            )
        }),
        ({
            let shown = under(logs_tree(entries), "logs"@);
            &&& shown is Some && shown->0 is Array
            &&& shown->0->Array_0.len() == entries.len()
            &&& 0 <= i < entries.len() ==> shown->0->Array_0[i] == log_tree(
                entries[i].host_id,
                entries[i].application_id,
                entries[i].source@,
                entries[i].line@,
                entries[i].ts,
            )
            &&& under(logs_tree(entries), "count"@) == Some(
                JsonView::Number(JsonNumber::PosInt(entries.len() as u64)),
            )
        }),
        ({
            let shown = under(alerts_tree(events), "alerts"@);
            &&& shown is Some && shown->0 is Array
            &&& shown->0->Array_0.len() == events.len()
            &&& 0 <= i < events.len() ==> shown->0->Array_0[i] == alert_tree(events[i])
            &&& under(alerts_tree(events), "active"@) == Some(
                JsonView::Number(JsonNumber::PosInt(active_alerts(events) as u64)),
            )
            &&& under(alerts_tree(events), "total"@) == Some(
                JsonView::Number(JsonNumber::PosInt(events.len() as u64)),
            )
        }),
{
    reveal_strlit("metrics");
    reveal_strlit("count");
    reveal_strlit("logs");
    reveal_strlit("alerts");
    reveal_strlit("active");
    reveal_strlit("total");
    assert("metrics"@.len() == 7);
    assert("count"@.len() == 5);
    assert("logs"@.len() == 4);
    assert("alerts"@.len() == 6);
    assert("active"@.len() == 6);
    assert("total"@.len() == 5);
    assert("count"@[0] != "total"@[0]);
    assert("alerts"@[1] != "active"@[1]);
    let members = status_tree(points)->Object_0;
    lemma_member(members, 0);
    let members = metrics_tree(points)->Object_0;
    assert(members[0].0 == "metrics"@ && members[1].0 == "count"@);
    lemma_member(members, 0);
    lemma_member(members, 1);
    let members = logs_tree(entries)->Object_0;
    assert(members[0].0 == "logs"@ && members[1].0 == "count"@);
    lemma_member(members, 0);
    lemma_member(members, 1);
    let members = alerts_tree(events)->Object_0;
    assert(members[0].0 == "alerts"@ && members[1].0 == "active"@ && members[2].0 == "total"@);
    lemma_member(members, 0);
    lemma_member(members, 1);
    lemma_member(members, 2);
}

/// One more alert that is not resolved makes one more that is active, and one that is resolved
/// makes none; of no alerts none is active.
pub proof fn law_active_alerts_are_those_not_resolved(events: Seq<AlertEvent>, event: AlertEvent)
    ensures
        active_alerts(Seq::<AlertEvent>::empty()) == 0,
        event.resolved_at is None ==> active_alerts(events.push(event)) == active_alerts(events)
            + 1,
        event.resolved_at is Some ==> active_alerts(events.push(event)) == active_alerts(events),
        active_alerts(events) <= events.len(),
{
    reveal(Seq::filter);
    assert(events.push(event).drop_last() =~= events);
    let open = |event: AlertEvent| event.resolved_at is None;
    assert(Seq::<AlertEvent>::empty().filter(open).len() == 0);
}

/// A bearer token counts as the token of a request, whatever the other header holds; without one
/// it is the other header that counts.
pub proof fn law_bearer_tokens_come_first(
    token: Seq<char>,
    authorization: Seq<char>,
    ingest_header: Option<Seq<char>>,
)
    ensures
        provided_token(Some("Bearer "@ + token), ingest_header) == Some(token),
        provided_token(None, ingest_header) == ingest_header,
        !"Bearer "@.is_prefix_of(authorization) ==> provided_token(
            Some(authorization),
            ingest_header,
        ) == ingest_header,
{
    let whole = "Bearer "@ + token;
    assert(whole.take("Bearer "@.len() as int) =~= "Bearer "@);
    assert(whole.skip("Bearer "@.len() as int) =~= token);
}

/// Where the token is brought, a request without lines is answered at once, with none stored, and
/// the lines of any other are looked at from the first on.
pub proof fn law_ingest_with_the_token_looks_at_the_lines(
    token: Seq<char>,
    ingest_header: Option<Seq<char>>,
    lines: Seq<IngestLineView>,
)
    requires
        token.len() > 0,
    ensures
        ({
            let step = ingest_step(token, Some("Bearer "@ + token), ingest_header, lines);
            &&& lines.len() == 0 ==> step == IngestStepView::Reply(
                IngestReplyView::Tree(inserted_tree(0)),
            )
            &&& lines.len() > 0 && (forall|i: int|
                0 <= i < lines.len() ==> (#[trigger] lines[i]).application_id is None) ==> step
                == IngestStepView::Store
            &&& step is CountOwners || step == IngestStepView::Store || (step matches
                IngestStepView::Reply(reply) && (reply matches IngestReplyView::Text(status, _)
                ==> status == 400))
        }),
{
    law_bearer_tokens_come_first(token, token, ingest_header);
    if lines.len() > 0 {
        law_each_claim_is_looked_up(lines, 0);
    }
}

/// The lines are looked at in order. The first that names an application is refused where it
/// names no host, and else looked up by that application and that host.
pub proof fn law_each_claim_is_looked_up(lines: Seq<IngestLineView>, from: int)
    requires
        0 <= from <= lines.len(),
    ensures
        scan_step(lines, from) == IngestStepView::Store <==> forall|i: int|
            from <= i < lines.len() ==> (#[trigger] lines[i]).application_id is None,
        scan_step(lines, from) matches IngestStepView::CountOwners(at, query) ==> {
            &&& from <= at < lines.len()
            &&& lines[at].application_id is Some && lines[at].host_id is Some
            &&& query.sql == "SELECT COUNT(*) FROM applications WHERE id = ?1 AND host_id = ?2"@
            &&& query.values.len() == 2
            &&& query.values[0] == SqlView::Integer(lines[at].application_id->0)
            &&& query.values[1] == SqlView::Integer(lines[at].host_id->0)
            &&& forall|i: int| from <= i < at ==> (#[trigger] lines[i]).application_id is None
        },
        scan_step(lines, from) matches IngestStepView::Reply(reply) ==> {
            &&& reply == IngestReplyView::Text(400, "application does not belong to host"@)
            &&& exists|at: int|
                from <= at < lines.len() && (#[trigger] lines[at]).application_id is Some
                    && lines[at].host_id is None
        },
    decreases lines.len() - from,
{
    if from < lines.len() {
        if lines[from].application_id is None {
            law_each_claim_is_looked_up(lines, from + 1);
        } else {
            assert(lines[from].application_id is Some);
        }
    }
}

/// A line whose application was found on its host is passed, and the look goes on behind it; one
/// whose application was not found, or could not be looked up, has all lines refused.
pub proof fn law_claims_that_do_not_hold_are_refused(
    lines: Seq<IngestLineView>,
    at: int,
    owners: Option<i64>,
)
    ensures
        owners is Some && owners->0 != 0 ==> counted_step(lines, at, owners) == scan_step(
            lines,
            at + 1,
        ),
        owners is None || owners->0 == 0 ==> counted_step(lines, at, owners)
            == IngestStepView::Reply(
            IngestReplyView::Text(400, "application does not belong to host"@),
        ),
{
}

/// A line is stored and shown at the time that it brings, and now where it brings none.
pub proof fn law_lines_bear_their_own_time(line: IngestLineView, now: i64)
    ensures
        line.ts is Some ==> line_time(line, now) == line.ts->0,
        line.ts is None ==> line_time(line, now) == now,
        line_statement(line, now).sql
            == "INSERT INTO logs (host_id, application_id, source, line, ts) VALUES (?1, ?2, ?3, ?4, ?5)"@,
        binds(line_statement(line, now).values[0], line.host_id),
        binds(line_statement(line, now).values[1], line.application_id),
        line_statement(line, now).values[4] == SqlView::Integer(line_time(line, now)),
{
}

/// Stored lines are answered with their number and shown live, all of them; lines that could not
/// be stored are answered as such.
pub proof fn law_stored_lines_are_counted_and_shown(
    lines: Seq<IngestLineView>,
    now: i64,
    i: int,
)
    ensures
        stored_reply(lines, false) == IngestReplyView::Text(500, "failed to store logs"@),
        stored_reply(lines, true) is Tree,
        under(stored_reply(lines, true)->Tree_0, "inserted"@) == Some(
            JsonView::Number(JsonNumber::PosInt(lines.len() as u64)),
        ),
        ({
            let shown = under(live_tree(lines, now), "logs"@);
            &&& shown is Some && shown->0 is Array
            &&& shown->0->Array_0.len() == lines.len()
            &&& 0 <= i < lines.len() ==> shown->0->Array_0[i] == log_tree(
                lines[i].host_id,
                lines[i].application_id,
                lines[i].source,
                lines[i].line,
                line_time(lines[i], now),
            )
        }),
{
    lemma_member(inserted_tree(lines.len())->Object_0, 0);
    lemma_member(live_tree(lines, now)->Object_0, 0);
}

} // verus!
