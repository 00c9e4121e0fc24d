use akurai_monitor::channel::{validate_channel_config, validate_channel_entries, StoredChannel};
use akurai_monitor::defaults::{apply_defaults, apply_defaults_at};
use akurai_monitor::fields::fields;
use akurai_monitor::json::{Double, Field, Json, JsonNumber};
use akurai_monitor::management::{
    channel_query, create, created, database_error, delete, delete_host, deleted, error, found, get, host_query, insert, list,
    listed, object_body, test_channel, update, update_channel, update_complete, update_host,
    updated, ApiResponse, DatabaseFailure, DeleteStep, ListQuery, PendingUpdate, UpdateStep,
};
use akurai_monitor::record::{row_json, sql_value, value_ref, Cell};
use akurai_monitor::resource::{resource, select_columns};
use akurai_monitor::sql::{SqlValue, Statement};
use akurai_monitor::validation::{check_type, validate, validate_entries};
use serde_json::Value;

const TITAN: &str = "http://100.88.0.9:4173";

fn map(entries: Vec<(&str, Value)>) -> serde_json::Map<String, Value> {
    let mut map = serde_json::Map::new();
    for (name, value) in entries {
        map.insert(name.to_string(), value);
    }
    map
}

fn body(entries: Vec<(&str, Value)>) -> Value {
    Value::Object(map(entries))
}

fn text(t: &str) -> Json {
    Json::Text(t.to_string())
}

fn number(n: u64) -> Json {
    Json::Number(JsonNumber::PosInt(n))
}

fn object(members: Vec<(&str, Json)>) -> Json {
    Json::Object(members.into_iter().map(|(name, value)| (name.to_string(), value)).collect())
}

fn refusal(status: u16, message: &str) -> ApiResponse {
    ApiResponse { status, body: object(vec![("error", text(message))]) }
}

fn statement(sql: &str, values: Vec<SqlValue>) -> Statement {
    Statement { sql: sql.to_string(), values }
}

fn sql_text(t: &str) -> SqlValue {
    SqlValue::Text(t.to_string())
}

fn step_reply(step: UpdateStep) -> ApiResponse {
    match step {
        UpdateStep::Reply(reply) => reply,
        _ => panic!("no reply"),
    }
}

#[test]
fn validates_channel_transport_and_endpoint() {
    let channel = resource("channels").unwrap();
    let valid = map(vec![
        ("name", Value::from("agents")),
        ("kind", Value::from("pi-bun")),
        ("endpoint", Value::from("http://100.88.0.9:4173")),
        ("token_env", Value::from("MONITOR_CHANNEL_TOKEN_PI_BUN")),
    ]);
    assert_eq!(validate(&channel, &valid, true), Ok(()));
    assert_eq!(validate_channel_config(&valid, &Ok(None)), Ok(()));

    let mut invalid_kind = valid.clone();
    invalid_kind.insert("kind".to_string(), Value::from("shell"));
    assert_eq!(
        validate(&channel, &invalid_kind, true),
        Err("channel kind must be webhook or pi-bun")
    );

    let mut wrong_type = valid.clone();
    wrong_type.insert("kind".to_string(), Value::from(true));
    assert_eq!(validate(&channel, &wrong_type, true), Err("text fields must contain strings"));

    let mut wrong_pi_host = valid.clone();
    wrong_pi_host.insert("endpoint".to_string(), Value::from("http://127.0.0.1:4173"));
    assert_eq!(
        validate_channel_config(&wrong_pi_host, &Ok(None)),
        Err("pi-bun endpoint must use Titan's 100.88.0.9 mesh address")
    );

    let mut wrong_token_name = valid.clone();
    wrong_token_name.insert("token_env".to_string(), Value::from("WORKBENCH_TOKEN"));
    assert_eq!(
        validate_channel_config(&wrong_token_name, &Ok(None)),
        Err("channel tokens must use a MONITOR_CHANNEL_TOKEN_ environment variable")
    );

    let webhook = map(vec![
        ("name", Value::from("webhook")),
        ("kind", Value::from("webhook")),
        ("endpoint", Value::from("http://127.0.0.1:18801/alert")),
    ]);
    assert_eq!(
        validate_channel_config(&webhook, &Ok(None)),
        Err("webhook endpoint must use HTTPS")
    );

    let mut invalid_endpoint = valid;
    invalid_endpoint.insert("endpoint".to_string(), Value::from("file:///tmp/socket"));
    assert_eq!(
        validate(&channel, &invalid_endpoint, true),
        Err("endpoint must be an HTTP or HTTPS URL")
    );
}

#[test]
fn validates_alert_operator_and_required_fields() {
    let alert = resource("alerts").unwrap();
    let mut fields = map(vec![
        ("name", Value::from("High load")),
        ("metric_name", Value::from("load.5m")),
        ("operator", Value::from("gt")),
        ("threshold", Value::from(4)),
        ("duration_secs", Value::from(300)),
    ]);
    assert_eq!(validate(&alert, &fields, true), Ok(()));

    fields.insert("operator".to_string(), Value::from("contains"));
    assert_eq!(validate(&alert, &fields, true), Err("operator must be gt, lt, or eq"));

    fields.insert("operator".to_string(), Value::from("gt"));
    fields.insert("duration_secs".to_string(), Value::from(0));
    assert_eq!(
        validate(&alert, &fields, true),
        Err("IDs and durations must be positive integers")
    );
    fields.insert("duration_secs".to_string(), Value::from(300));
    fields.remove("metric_name");
    assert_eq!(validate(&alert, &fields, true), Err("request is missing a required field"));
}

#[test]
fn refuses_fields_in_a_fixed_order() {
    let host = resource("hosts").unwrap();
    let unknown = map(vec![("name", Value::Null), ("owner", Value::from(1))]);
    assert_eq!(validate(&host, &unknown, true), Err("request contains an unknown field"));
    let null_name = map(vec![("name", Value::Null), ("address", Value::from("a"))]);
    assert_eq!(validate(&host, &null_name, true), Err("request is missing a required field"));
    assert_eq!(validate(&host, &null_name, false), Err("required fields cannot be null"));
    let nested = map(vec![("kind", Value::Array(Vec::new())), ("enabled", Value::from("x"))]);
    assert_eq!(validate(&host, &nested, false), Err("field values must be scalar"));
    let object = map(vec![("kind", Value::Object(serde_json::Map::new()))]);
    assert_eq!(validate(&host, &object, false), Err("field values must be scalar"));
    assert_eq!(validate(&host, &serde_json::Map::new(), false), Ok(()));
}

#[test]
fn holds_values_to_the_type_of_their_field() {
    let flag = Some("enabled must be a boolean");
    let id = Some("IDs and durations must be positive integers");
    let time = Some("timestamps must be integers");
    let measure = Some("metric values and thresholds must be finite numbers");
    let words = Some("text fields must contain strings");
    let integer = |n: i64| Field::Number(JsonNumber::from_i64(n));
    let double = |d: f64| Field::Number(JsonNumber::Float(Double { bits: d.to_bits() }));

    assert_eq!(check_type("enabled", &Field::Bool(false)), None);
    assert_eq!(check_type("enabled", &integer(0)), None);
    assert_eq!(check_type("enabled", &integer(1)), None);
    assert_eq!(check_type("enabled", &integer(2)), flag);
    assert_eq!(check_type("enabled", &Field::Text("true".to_string())), flag);
    assert_eq!(check_type("host_id", &integer(1)), None);
    assert_eq!(check_type("application_id", &integer(-1)), id);
    assert_eq!(check_type("channel_id", &double(1.0)), id);
    assert_eq!(check_type("duration_secs", &Field::Number(JsonNumber::PosInt(u64::MAX))), id);
    assert_eq!(check_type("ts", &integer(-5)), None);
    assert_eq!(check_type("created_at", &Field::Text("1".to_string())), time);
    assert_eq!(check_type("updated_at", &double(1.5)), time);
    assert_eq!(check_type("value", &double(1.5)), None);
    assert_eq!(check_type("threshold", &integer(4)), None);
    assert_eq!(check_type("value", &double(f64::INFINITY)), measure);
    assert_eq!(check_type("value", &double(f64::NAN)), measure);
    assert_eq!(check_type("threshold", &Field::Text("4".to_string())), measure);
    assert_eq!(check_type("name", &Field::Text(String::new())), None);
    assert_eq!(check_type("name", &integer(4)), words);
    assert_eq!(check_type("enabled", &Field::Null), None);
    assert_eq!(check_type("host_id", &Field::Null), None);
}

#[test]
fn host_kinds_are_free_and_channel_kinds_are_not() {
    let host = resource("hosts").unwrap();
    let entries = vec![("kind".to_string(), Field::Text("windows".to_string()))];
    assert_eq!(validate_entries(&host, &entries, false), Ok(()));
    let channel = resource("channels").unwrap();
    assert_eq!(
        validate_entries(&channel, &entries, false),
        Err("channel kind must be webhook or pi-bun")
    );
}

#[test]
fn completes_channels_with_what_is_stored() {
    let stored = Ok(Some(StoredChannel {
        kind: "pi-bun".to_string(),
        endpoint: TITAN.to_string(),
        token_env: Some("MONITOR_CHANNEL_TOKEN_A".to_string()),
    }));
    assert_eq!(validate_channel_config(&serde_json::Map::new(), &stored), Ok(()));
    let without_token = map(vec![("token_env", Value::Null)]);
    assert_eq!(
        validate_channel_config(&without_token, &stored),
        Err("pi-bun channel requires token_env")
    );
    let webhook = map(vec![("kind", Value::from("webhook"))]);
    assert_eq!(validate_channel_config(&webhook, &stored), Err("webhook endpoint must use HTTPS"));
    let moved = map(vec![
        ("kind", Value::from("webhook")),
        ("endpoint", Value::from("https://example.com/hook")),
    ]);
    assert_eq!(validate_channel_config(&moved, &stored), Ok(()));
}

#[test]
fn channel_refusals() {
    let none = Ok(None);
    assert_eq!(validate_channel_config(&serde_json::Map::new(), &Err(())), Err("failed to read channel"));
    assert_eq!(validate_channel_config(&serde_json::Map::new(), &none), Err("channel kind is required"));
    let kind = map(vec![("kind", Value::from("webhook"))]);
    assert_eq!(validate_channel_config(&kind, &none), Err("channel endpoint is required"));
    let token = vec![
        ("kind".to_string(), Field::Text("webhook".to_string())),
        ("endpoint".to_string(), Field::Text("https://example.com".to_string())),
        ("token_env".to_string(), Field::Bool(true)),
    ];
    assert_eq!(
        validate_channel_entries(&token, &none),
        Err("token_env must be a string or null")
    );
    for (endpoint, message) in [
        ("https://", "channel endpoint is not a valid URL"),
        ("https://user@example.com", "channel endpoint cannot contain credentials"),
        ("https://:secret@example.com", "channel endpoint cannot contain credentials"),
        ("ftp://example.com", "webhook endpoint must use HTTPS"),
    ] {
        let fields =
            map(vec![("kind", Value::from("webhook")), ("endpoint", Value::from(endpoint))]);
        assert_eq!(validate_channel_config(&fields, &none), Err(message), "{endpoint}");
    }
    let other = map(vec![
        ("kind", Value::from("mail")),
        ("endpoint", Value::from("https://example.com")),
    ]);
    assert_eq!(
        validate_channel_config(&other, &none),
        Err("channel kind must be webhook or pi-bun")
    );
}

#[test]
fn knows_seven_resources() {
    for name in
        ["hosts", "applications", "metrics", "logs", "alerts", "recipients", "channels"]
    {
        let known = resource(name).unwrap();
        assert_eq!(known.name, name);
        for field in &known.required {
            assert!(known.fields.contains(field));
        }
        assert!(list(name, &ListQuery { limit: None }).is_ok());
        assert!(get(name, 1).is_ok());
        assert!(!matches!(delete(name, 1), DeleteStep::Reply(_)));
    }
    assert!(resource("users").is_none());
    assert_eq!(
        select_columns(&resource("metrics").unwrap()),
        "id, host_id, application_id, name, value, ts"
    );
}

#[test]
fn unknown_resources_are_answered_alike() {
    let unknown = refusal(404, "unknown resource");
    assert_eq!(list("users", &ListQuery { limit: None }).err(), Some(refusal(404, "unknown resource")));
    assert_eq!(get("users", 1).err(), Some(refusal(404, "unknown resource")));
    assert_eq!(create("users", &Value::Null).err(), Some(refusal(404, "unknown resource")));
    assert_eq!(step_reply(update("users", 1, &Value::Null)), unknown);
    assert!(matches!(delete("users", 1), DeleteStep::Reply(reply) if reply == unknown));
}

#[test]
fn lists_by_time_or_by_id() {
    let task = list("logs", &ListQuery { limit: Some(50) }).ok().unwrap();
    assert_eq!(
        task.statement,
        statement(
            "SELECT id, host_id, application_id, source, line, ts FROM logs ORDER BY ts DESC LIMIT ?1",
            vec![SqlValue::Integer(50)]
        )
    );
    let task = list("alerts", &ListQuery { limit: None }).ok().unwrap();
    assert_eq!(
        task.statement,
        statement(
            "SELECT id, host_id, application_id, name, metric_name, operator, threshold, duration_secs, enabled FROM alert_rules ORDER BY id DESC LIMIT ?1",
            vec![SqlValue::Integer(200)]
        )
    );
}

#[test]
fn page_limits_are_bounded() {
    for (limit, expected) in [(0, 1), (1, 1), (1000, 1000), (1001, 1000), (usize::MAX, 1000)] {
        let task = list("hosts", &ListQuery { limit: Some(limit) }).ok().unwrap();
        assert_eq!(task.statement.values, vec![SqlValue::Integer(expected)]);
    }
}

#[test]
fn shows_rows_by_column() {
    let metrics = resource("metrics").unwrap();
    let row = vec![
        Cell::Integer(7),
        Cell::Integer(1),
        Cell::Null,
        Cell::Text("cpu.usage".as_bytes().to_vec()),
        Cell::Real(Double { bits: 12.5f64.to_bits() }),
        Cell::Integer(-3),
    ];
    let item = || {
        object(vec![
            ("id", number(7)),
            ("host_id", number(1)),
            ("application_id", Json::Null),
            ("name", text("cpu.usage")),
            ("value", Json::Number(JsonNumber::Float(Double { bits: 12.5f64.to_bits() }))),
            ("ts", Json::Number(JsonNumber::NegInt(-3))),
        ])
    };
    assert_eq!(row_json(&row, &metrics), Some(item()));
    assert_eq!(row_json(&vec![Cell::Integer(7)], &metrics), None);
    assert_eq!(
        found(&metrics, &Ok(Some(row))),
        ApiResponse {
            status: 200,
            body: object(vec![("resource", text("metrics")), ("item", item())]),
        }
    );
    assert_eq!(found(&metrics, &Ok(None)), refusal(404, "record not found"));
    assert_eq!(found(&metrics, &Err(())), refusal(500, "database query failed"));
    assert_eq!(
        found(&metrics, &Ok(Some(vec![Cell::Integer(7)]))),
        refusal(500, "database query failed")
    );
}

#[test]
fn answers_lists() {
    let recipients = resource("recipients").unwrap();
    assert_eq!(
        listed(&recipients, &Ok(Vec::new())),
        ApiResponse {
            status: 200,
            body: object(vec![
                ("resource", text("recipients")),
                ("count", number(0)),
                ("items", Json::Array(Vec::new())),
            ]),
        }
    );
    let row = || (0..7).map(Cell::Integer).collect::<Vec<Cell>>();
    match listed(&recipients, &Ok(vec![row(), row()])).body {
        Json::Object(members) => {
            assert_eq!(members[1], ("count".to_string(), number(2)));
            match &members[2].1 {
                Json::Array(items) => assert_eq!(items.len(), 2),
                _ => panic!("no array"),
            }
        }
        _ => panic!("no object"),
    }
    assert_eq!(listed(&recipients, &Err(())), refusal(500, "database query failed"));
    assert_eq!(
        listed(&recipients, &Ok(vec![row(), Vec::new()])),
        refusal(500, "database query failed")
    );
}

#[test]
fn shows_cells() {
    assert_eq!(value_ref(&Cell::Null), Json::Null);
    assert_eq!(value_ref(&Cell::Blob), Json::Null);
    assert_eq!(value_ref(&Cell::Integer(i64::MIN)), Json::Number(JsonNumber::NegInt(i64::MIN)));
    assert_eq!(value_ref(&Cell::Real(Double { bits: f64::NAN.to_bits() })), Json::Null);
    assert_eq!(value_ref(&Cell::Text("ö".as_bytes().to_vec())), text("ö"));
    assert_eq!(value_ref(&Cell::Text(vec![b'a', 0xff, b'b'])), text("a\u{fffd}b"));
}

#[test]
fn binds_scalars() {
    assert_eq!(sql_value(&Field::Null), Ok(SqlValue::Null));
    assert_eq!(sql_value(&Field::Bool(true)), Ok(SqlValue::Integer(1)));
    assert_eq!(sql_value(&Field::Bool(false)), Ok(SqlValue::Integer(0)));
    assert_eq!(
        sql_value(&Field::Number(JsonNumber::NegInt(-2))),
        Ok(SqlValue::Integer(-2))
    );
    assert_eq!(
        sql_value(&Field::Number(JsonNumber::PosInt(u64::MAX))),
        Ok(SqlValue::Real(JsonNumber::PosInt(u64::MAX)))
    );
    assert_eq!(sql_value(&Field::Text("x".to_string())), Ok(sql_text("x")));
    assert_eq!(sql_value(&Field::Array), Err("field values must be scalar"));
    assert_eq!(sql_value(&Field::Object), Err("field values must be scalar"));
}

#[test]
fn reads_the_fields_of_a_request() {
    let request = map(vec![
        ("z", Value::from(-1)),
        ("a", Value::from(2.5)),
        ("m", Value::from(u64::MAX)),
        ("b", Value::from(true)),
        ("t", Value::from("x")),
        ("n", Value::Null),
    ]);
    let read = fields(&request);
    let names: Vec<&str> = read.iter().map(|entry| entry.0.as_str()).collect();
    assert_eq!(names, vec!["a", "b", "m", "n", "t", "z"]);
    assert!(matches!(&read[0].1, Field::Number(JsonNumber::Float(d)) if d.bits == 2.5f64.to_bits()));
    assert!(matches!(&read[1].1, Field::Bool(true)));
    assert!(matches!(&read[2].1, Field::Number(JsonNumber::PosInt(u64::MAX))));
    assert!(matches!(&read[3].1, Field::Null));
    assert!(matches!(&read[4].1, Field::Text(t) if t == "x"));
    assert!(matches!(&read[5].1, Field::Number(JsonNumber::NegInt(-1))));
}

#[test]
fn request_bodies_are_objects() {
    assert_eq!(object_body(&Value::from(1)), Err(()));
    assert_eq!(object_body(&Value::Array(Vec::new())), Err(()));
    let request = map(vec![("name", Value::from("tv"))]);
    assert_eq!(object_body(&Value::Object(request.clone())), Ok(request));
    assert_eq!(
        create("hosts", &Value::from("x")).err(),
        Some(refusal(400, "request body must be an object"))
    );
    assert_eq!(
        step_reply(update("hosts", 1, &Value::Null)),
        refusal(400, "request body must be an object")
    );
}

#[test]
fn fills_in_defaults_of_new_records() {
    let host = resource("hosts").unwrap();
    let mut given = map(vec![("name", Value::from("tv")), ("created_at", Value::from(1))]);
    apply_defaults_at(&host, &mut given, true, 1000);
    assert_eq!(
        given,
        map(vec![
            ("name", Value::from("tv")),
            ("created_at", Value::from(1000)),
            ("updated_at", Value::from(1000)),
            ("enabled", Value::from(true)),
            ("kind", Value::from("linux")),
        ])
    );

    let mut kept = map(vec![("kind", Value::from("bsd")), ("enabled", Value::from(false))]);
    apply_defaults_at(&host, &mut kept, true, -5);
    assert_eq!(kept["kind"], Value::from("bsd"));
    assert_eq!(kept["enabled"], Value::from(false));
    assert_eq!(kept["updated_at"], Value::from(-5));

    let metrics = resource("metrics").unwrap();
    let mut measured = map(vec![("name", Value::from("x"))]);
    apply_defaults_at(&metrics, &mut measured, true, 1000);
    assert_eq!(measured, map(vec![("name", Value::from("x")), ("ts", Value::from(1000))]));
    let mut dated = map(vec![("ts", Value::from(3))]);
    apply_defaults_at(&metrics, &mut dated, true, 1000);
    assert_eq!(dated, map(vec![("ts", Value::from(3))]));
}

#[test]
fn stamps_changed_records() {
    let channel = resource("channels").unwrap();
    let mut given = map(vec![("updated_at", Value::from("yesterday"))]);
    apply_defaults_at(&channel, &mut given, false, 1000);
    assert_eq!(given, map(vec![("updated_at", Value::from(1000))]));
    let alert = resource("alerts").unwrap();
    let mut empty = serde_json::Map::new();
    apply_defaults_at(&alert, &mut empty, false, 1000);
    assert!(empty.is_empty());
}

#[test]
fn defaults_take_the_current_time() {
    let host = resource("hosts").unwrap();
    let before = chrono::Utc::now().timestamp();
    let mut given = serde_json::Map::new();
    apply_defaults(&host, &mut given, false);
    let after = chrono::Utc::now().timestamp();
    let stamp = given["updated_at"].as_i64().unwrap();
    assert!(before <= stamp && stamp <= after);
}

#[test]
fn inserts_records_in_column_order() {
    let metrics = resource("metrics").unwrap();
    let request = map(vec![
        ("ts", Value::from(9)),
        ("value", Value::from(1.5)),
        ("host_id", Value::from(2)),
        ("name", Value::from("health.ready")),
    ]);
    let task = insert(metrics, &request).ok().unwrap();
    assert_eq!(
        task.statement,
        statement(
            "INSERT INTO metrics (host_id, name, value, ts) VALUES (?1, ?2, ?3, ?4)",
            vec![
                SqlValue::Integer(2),
                sql_text("health.ready"),
                SqlValue::Real(JsonNumber::Float(Double { bits: 1.5f64.to_bits() })),
                SqlValue::Integer(9),
            ]
        )
    );
}

#[test]
fn values_stay_out_of_the_text() {
    let hostile = "x'); DROP TABLE hosts; --";
    let sql = |source: &str| {
        let request = map(vec![("source", Value::from(source)), ("line", Value::from(source))]);
        insert(resource("logs").unwrap(), &request).ok().unwrap().statement
    };
    assert_eq!(sql(hostile).sql, sql("syslog").sql);
    assert_eq!(sql(hostile).values, vec![sql_text(hostile), sql_text(hostile)]);
}

#[test]
fn creates_records_with_the_current_time() {
    let before = chrono::Utc::now().timestamp();
    let task =
        create("logs", &body(vec![("source", Value::from("tv")), ("line", Value::from("ready"))]));
    let after = chrono::Utc::now().timestamp();
    let statement = task.ok().unwrap().statement;
    assert_eq!(statement.sql, "INSERT INTO logs (source, line, ts) VALUES (?1, ?2, ?3)");
    assert!(
        matches!(&statement.values[2], SqlValue::Integer(ts) if before <= *ts && *ts <= after)
    );
    assert_eq!(
        create("logs", &body(vec![("source", Value::from("tv"))])).err(),
        Some(refusal(400, "request is missing a required field"))
    );
    assert_eq!(
        create(
            "channels",
            &body(vec![
                ("name", Value::from("a")),
                ("kind", Value::from("pi-bun")),
                ("endpoint", Value::from(TITAN)),
            ])
        )
        .err(),
        Some(refusal(400, "pi-bun channel requires token_env"))
    );
}

#[test]
fn goes_on_from_additions() {
    assert_eq!(created(Ok(5)), Ok(5));
    assert_eq!(
        created(Err(DatabaseFailure::Constraint)),
        Err(refusal(409, "record conflicts with existing data"))
    );
    assert_eq!(
        database_error(DatabaseFailure::Other),
        refusal(500, "database operation failed")
    );
    assert_eq!(error(418, "teapot"), refusal(418, "teapot"));
}

#[test]
fn updates_records() {
    let step = update("alerts", 4, &body(vec![("threshold", Value::from(5))]));
    match step {
        UpdateStep::Run(task) => assert_eq!(
            task.statement,
            statement(
                "UPDATE alert_rules SET threshold = ?1 WHERE id = ?2",
                vec![SqlValue::Integer(5), SqlValue::Integer(4)]
            )
        ),
        _ => panic!("no statement"),
    }
    assert_eq!(step_reply(update("alerts", 4, &body(Vec::new()))), refusal(400, "no fields to update"));
    assert_eq!(
        step_reply(update("alerts", 4, &body(vec![("name", Value::Null)]))),
        refusal(400, "required fields cannot be null")
    );
    assert_eq!(updated(Ok(0)), Err(refusal(404, "record not found")));
    assert_eq!(updated(Ok(1)), Ok(()));
    assert_eq!(
        updated(Err(DatabaseFailure::Other)),
        Err(refusal(500, "database operation failed"))
    );
}

#[test]
fn complete_updates_write_every_field() {
    let pending = PendingUpdate {
        resource: resource("applications").unwrap(),
        id: 12,
        request: map(vec![
            ("updated_at", Value::from(8)),
            ("enabled", Value::from(false)),
            ("service_name", Value::Null),
        ]),
    };
    match update_complete(pending) {
        UpdateStep::Run(task) => assert_eq!(
            task.statement,
            statement(
                "UPDATE applications SET service_name = ?1, enabled = ?2, updated_at = ?3 WHERE id = ?4",
                vec![
                    SqlValue::Null,
                    SqlValue::Integer(0),
                    SqlValue::Integer(8),
                    SqlValue::Integer(12),
                ]
            )
        ),
        _ => panic!("no statement"),
    }
}

#[test]
fn the_local_host_keeps_its_name() {
    let rename = || match update("hosts", 1, &body(vec![("name", Value::from("other"))])) {
        UpdateStep::ReadHost(pending) => pending,
        _ => panic!("the host is not read"),
    };
    assert_eq!(
        step_reply(update_host(rename(), &Ok(Some("local".to_string())))),
        refusal(409, "the local host cannot be renamed")
    );
    assert_eq!(
        step_reply(update_host(rename(), &Err(()))),
        refusal(500, "database query failed")
    );
    assert!(matches!(update_host(rename(), &Ok(Some("tv".to_string()))), UpdateStep::Run(_)));
    assert!(matches!(update_host(rename(), &Ok(None)), UpdateStep::Run(_)));
    let same = update("hosts", 1, &body(vec![("name", Value::from("local"))]));
    assert!(matches!(same, UpdateStep::Run(_)));
    let number = update("hosts", 1, &body(vec![("name", Value::from(3))]));
    assert!(matches!(number, UpdateStep::ReadHost(_)));
}

#[test]
fn the_local_host_is_not_deleted() {
    let host = || match delete("hosts", 1) {
        DeleteStep::ReadHost(resource, id) => (resource, id),
        _ => panic!("the host is not read"),
    };
    let (resource, id) = host();
    assert!(matches!(
        delete_host(resource, id, &Ok(Some("local".to_string()))),
        DeleteStep::Reply(reply) if reply == refusal(409, "the local host cannot be deleted")
    ));
    let (resource, id) = host();
    assert!(matches!(
        delete_host(resource, id, &Err(())),
        DeleteStep::Reply(reply) if reply == refusal(500, "database query failed")
    ));
    let (resource, id) = host();
    match delete_host(resource, id, &Ok(Some("tv".to_string()))) {
        DeleteStep::Run(task) => assert_eq!(
            task.statement,
            statement("DELETE FROM hosts WHERE id = ?1", vec![SqlValue::Integer(1)])
        ),
        _ => panic!("no statement"),
    }
}

#[test]
fn answers_deletions() {
    let alerts = resource("alerts").unwrap();
    assert_eq!(
        deleted(&alerts, 3, Ok(1)),
        ApiResponse {
            status: 200,
            body: object(vec![("deleted", number(3)), ("resource", text("alerts"))]),
        }
    );
    assert_eq!(deleted(&alerts, 3, Ok(0)), refusal(404, "record not found"));
    assert_eq!(
        deleted(&alerts, 3, Err(DatabaseFailure::Constraint)),
        refusal(409, "record conflicts with existing data")
    );
}

#[test]
fn asks_for_what_is_stored() {
    assert_eq!(
        host_query(3),
        statement("SELECT name FROM hosts WHERE id = ?1", vec![SqlValue::Integer(3)])
    );
    assert_eq!(
        channel_query(3),
        statement(
            "SELECT kind, endpoint, token_env FROM channels WHERE id = ?1",
            vec![SqlValue::Integer(3)]
        )
    );
}

#[test]
fn channels_are_changed_within_the_rules() {
    let change = |entries: Vec<(&str, Value)>| match update("channels", 2, &body(entries)) {
        UpdateStep::ReadChannel(pending) => pending,
        _ => panic!("the channel is not read"),
    };
    let stored = || {
        Ok(Some(StoredChannel {
            kind: "pi-bun".to_string(),
            endpoint: TITAN.to_string(),
            token_env: Some("MONITOR_CHANNEL_TOKEN_A".to_string()),
        }))
    };
    assert_eq!(
        step_reply(update_channel(change(vec![("token_env", Value::Null)]), &stored())),
        refusal(400, "pi-bun channel requires token_env")
    );
    assert_eq!(
        step_reply(update_channel(change(vec![("name", Value::from("b"))]), &Err(()))),
        refusal(400, "failed to read channel")
    );
    match update_channel(change(vec![("name", Value::from("b"))]), &stored()) {
        UpdateStep::Run(task) => assert_eq!(
            task.statement.sql,
            "UPDATE channels SET name = ?1, updated_at = ?2 WHERE id = ?3"
        ),
        _ => panic!("no statement"),
    }
}

#[test]
fn answers_channel_tests() {
    assert_eq!(
        test_channel(2, &Ok(3)),
        ApiResponse {
            status: 200,
            body: object(vec![("channel_id", number(2)), ("sent", number(3))]),
        }
    );
    assert_eq!(
        test_channel(2, &Err("channel has no enabled recipients".to_string())),
        refusal(502, "channel has no enabled recipients")
    );
}
