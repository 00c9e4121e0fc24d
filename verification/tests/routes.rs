use akurai_monitor::json::{Double, Json, JsonNumber};
use akurai_monitor::routes::{
    alerts, alerts_at, alerts_body, ct_eq, cutoff, health, ingest, live_lines, logs, logs_at,
    logs_body, metrics, metrics_at, metrics_body, owners_counted, status, status_body, store_lines,
    store_lines_at, stored, AlertEvent, AlertsQuery, IngestBody, IngestLine, IngestReply,
    IngestStep, LogEntry, LogsQuery, MetricPoint, MetricsQuery,
};
use akurai_monitor::sql::{SqlValue, Statement};

fn text(t: &str) -> Json {
    Json::Text(t.to_string())
}

fn number(n: u64) -> Json {
    Json::Number(JsonNumber::PosInt(n))
}

fn double(d: f64) -> Json {
    Json::Number(JsonNumber::Float(Double { bits: d.to_bits() }))
}

fn object(members: Vec<(&str, Json)>) -> Json {
    Json::Object(members.into_iter().map(|(name, value)| (name.to_string(), value)).collect())
}

fn line(application_id: Option<i64>, host_id: Option<i64>, ts: Option<i64>) -> IngestLine {
    IngestLine {
        source: "tv".to_string(),
        line: "ready".to_string(),
        ts,
        host_id,
        application_id,
    }
}

fn metrics_query(hours: Option<i64>) -> MetricsQuery {
    MetricsQuery { name: None, hours, host_id: None, application_id: None }
}

#[test]
fn tells_its_health() {
    assert_eq!(
        health("0.4.2"),
        object(vec![
            ("app", text("akurai-monitor")),
            ("status", text("ok")),
            ("version", text("0.4.2")),
        ])
    );
}

#[test]
fn windows_start_hours_ago() {
    assert_eq!(cutoff(100_000, Some(2), 24), Some(92_800));
    assert_eq!(cutoff(100_000, None, 24), Some(13_600));
    assert_eq!(cutoff(100_000, Some(0), 24), Some(100_000));
    assert_eq!(cutoff(0, Some(-1), 24), Some(3600));
    assert_eq!(cutoff(i64::MAX, Some(i64::MAX / 3600 + 1), 24), None);
    assert_eq!(cutoff(i64::MIN, Some(1), 24), None);
    assert_eq!(cutoff(i64::MAX, Some(-1), 24), None);
}

#[test]
fn asks_for_the_latest_metrics() {
    assert_eq!(
        status(),
        Statement {
            sql: "SELECT host_id, application_id, name, value, ts FROM metrics WHERE id IN (SELECT MAX(id) FROM metrics GROUP BY host_id, application_id, name) ORDER BY host_id, application_id, name".to_string(),
            values: Vec::new(),
        }
    );
}

#[test]
fn shows_metrics() {
    let points = vec![MetricPoint {
        host_id: Some(1),
        application_id: None,
        name: "cpu.usage".to_string(),
        value: Double { bits: 12.5f64.to_bits() },
        ts: 9,
    }];
    let tree = || {
        Json::Array(vec![object(vec![
            ("host_id", number(1)),
            ("application_id", Json::Null),
            ("name", text("cpu.usage")),
            ("value", double(12.5)),
            ("ts", number(9)),
        ])])
    };
    assert_eq!(status_body(&points), object(vec![("metrics", tree())]));
    assert_eq!(
        metrics_body(&points),
        object(vec![("metrics", tree()), ("count", number(1))])
    );
}

#[test]
fn asks_for_metrics_of_a_window() {
    let sql = "SELECT host_id, application_id, name, value, ts FROM metrics WHERE ts >= ?1 AND (?2 IS NULL OR name = ?2) AND (?3 IS NULL OR host_id = ?3) AND (?4 IS NULL OR application_id = ?4) ORDER BY ts LIMIT 1000";
    assert_eq!(
        metrics_at(&metrics_query(None), 100_000),
        Some(Statement {
            sql: sql.to_string(),
            values: vec![
                SqlValue::Integer(13_600),
                SqlValue::Null,
                SqlValue::Null,
                SqlValue::Null,
            ],
        })
    );
    let narrow = MetricsQuery {
        name: Some("cpu.usage".to_string()),
        hours: Some(1),
        host_id: Some(2),
        application_id: Some(3),
    };
    assert_eq!(
        metrics_at(&narrow, 100_000).unwrap().values,
        vec![
            SqlValue::Integer(96_400),
            SqlValue::Text("cpu.usage".to_string()),
            SqlValue::Integer(2),
            SqlValue::Integer(3),
        ]
    );
    assert_eq!(metrics_at(&metrics_query(Some(i64::MAX)), 0), None);
}

#[test]
fn asks_for_logs_of_a_window() {
    let query = LogsQuery {
        source: Some("syslog".to_string()),
        hours: None,
        host_id: None,
        application_id: Some(3),
    };
    assert_eq!(
        logs_at(&query, 100_000),
        Some(Statement {
            sql: "SELECT host_id, application_id, source, line, ts FROM logs WHERE ts >= ?1 AND (?2 IS NULL OR source = ?2) AND (?3 IS NULL OR host_id = ?3) AND (?4 IS NULL OR application_id = ?4) ORDER BY ts DESC LIMIT 500".to_string(),
            values: vec![
                SqlValue::Integer(96_400),
                SqlValue::Text("syslog".to_string()),
                SqlValue::Null,
                SqlValue::Integer(3),
            ],
        })
    );
}

#[test]
fn shows_logs() {
    let entries = vec![LogEntry {
        host_id: None,
        application_id: Some(-1),
        source: "syslog".to_string(),
        line: "ready".to_string(),
        ts: 9,
    }];
    assert_eq!(
        logs_body(&entries),
        object(vec![
            (
                "logs",
                Json::Array(vec![object(vec![
                    ("host_id", Json::Null),
                    ("application_id", Json::Number(JsonNumber::NegInt(-1))),
                    ("source", text("syslog")),
                    ("line", text("ready")),
                    ("ts", number(9)),
                ])])
            ),
            ("count", number(1)),
        ])
    );
}

#[test]
fn asks_for_alerts_of_a_window() {
    let query = AlertsQuery { hours: Some(2), host_id: Some(1), application_id: None };
    assert_eq!(
        alerts_at(&query, 100_000),
        Some(Statement {
            sql: "SELECT e.id, r.host_id, r.application_id, r.name, r.metric_name, r.threshold, e.value, e.triggered_at, e.resolved_at FROM alert_events e JOIN alert_rules r ON e.rule_id = r.id WHERE (e.triggered_at >= ?1 OR e.resolved_at IS NULL) AND (?2 IS NULL OR r.host_id = ?2) AND (?3 IS NULL OR r.application_id = ?3) ORDER BY e.triggered_at DESC".to_string(),
            values: vec![SqlValue::Integer(92_800), SqlValue::Integer(1), SqlValue::Null],
        })
    );
}

#[test]
fn counts_active_alerts() {
    let event = |id, resolved_at| AlertEvent {
        id,
        host_id: Some(1),
        application_id: None,
        rule_name: "High CPU".to_string(),
        metric_name: "cpu.usage".to_string(),
        threshold: Double { bits: 90f64.to_bits() },
        value: Double { bits: f64::NAN.to_bits() },
        triggered_at: 5,
        resolved_at,
    };
    let tree = |id, resolved_at| {
        object(vec![
            ("id", number(id)),
            ("host_id", number(1)),
            ("application_id", Json::Null),
            ("rule_name", text("High CPU")),
            ("metric_name", text("cpu.usage")),
            ("threshold", double(90.0)),
            ("value", Json::Null),
            ("triggered_at", number(5)),
            ("resolved_at", resolved_at),
        ])
    };
    assert_eq!(
        alerts_body(&vec![event(3, None), event(2, Some(8)), event(1, None)]),
        object(vec![
            (
                "alerts",
                Json::Array(vec![tree(3, Json::Null), tree(2, number(8)), tree(1, Json::Null)])
            ),
            ("active", number(2)),
            ("total", number(3)),
        ])
    );
}

#[test]
fn windows_end_now() {
    let before = chrono::Utc::now().timestamp() - 3600;
    let queries = vec![
        metrics(&metrics_query(Some(1))),
        logs(&LogsQuery { source: None, hours: None, host_id: None, application_id: None }),
        alerts(&AlertsQuery { hours: Some(1), host_id: None, application_id: None }),
    ];
    let after = chrono::Utc::now().timestamp() - 3600;
    for query in queries {
        let start = query.unwrap().values.remove(0);
        assert!(matches!(start, SqlValue::Integer(ts) if before <= ts && ts <= after));
    }
}

#[test]
fn compares_tokens_by_every_byte() {
    assert!(ct_eq(b"token", b"token"));
    assert!(!ct_eq(b"token", b"tokem"));
    assert!(!ct_eq(b"uoken", b"token"));
    assert!(!ct_eq(b"toke", b"token"));
    assert!(ct_eq(b"", b""));
}

fn header(value: &str) -> Option<String> {
    Some(value.to_string())
}

#[test]
fn ingest_needs_the_token() {
    let body = IngestBody { logs: vec![line(None, None, None)] };
    let disabled = IngestStep::Reply(IngestReply::Text(503, "ingest disabled"));
    let refused = IngestStep::Reply(IngestReply::Text(401, "invalid ingest token"));
    assert_eq!(ingest("", &header("Bearer "), &header(""), &body), disabled);
    assert_eq!(ingest("hush", &None, &None, &body), refused);
    assert_eq!(ingest("hush", &header("Bearer hus"), &None, &body), refused);
    assert_eq!(ingest("hush", &header("bearer hush"), &None, &body), refused);
    assert_eq!(ingest("hush", &header("Bearer nope"), &header("hush"), &body), refused);
    assert_eq!(ingest("hush", &header("Bearer hush"), &None, &body), IngestStep::Store);
    assert_eq!(ingest("hush", &None, &header("hush"), &body), IngestStep::Store);
    assert_eq!(ingest("hush", &header("Basic x"), &header("hush"), &body), IngestStep::Store);
}

#[test]
fn ingest_of_nothing_stores_nothing() {
    let body = IngestBody { logs: Vec::new() };
    assert_eq!(
        ingest("hush", &None, &header("hush"), &body),
        IngestStep::Reply(IngestReply::Tree(object(vec![("inserted", number(0))])))
    );
}

#[test]
fn lines_are_stored_where_all_are_rightly_attributed() {
    let wrong = || IngestStep::Reply(IngestReply::Text(400, "application does not belong to host"));
    let count = |at, application, host| {
        IngestStep::CountOwners(
            at,
            Statement {
                sql: "SELECT COUNT(*) FROM applications WHERE id = ?1 AND host_id = ?2".to_string(),
                values: vec![SqlValue::Integer(application), SqlValue::Integer(host)],
            },
        )
    };
    let body = IngestBody {
        logs: vec![
            line(None, Some(1), None),
            line(Some(5), Some(1), None),
            line(None, None, None),
            line(Some(6), Some(2), None),
        ],
    };
    assert_eq!(ingest("hush", &None, &header("hush"), &body), count(1, 5, 1));
    assert_eq!(owners_counted(&body, 1, Some(1)), count(3, 6, 2));
    assert_eq!(owners_counted(&body, 3, Some(1)), IngestStep::Store);
    assert_eq!(owners_counted(&body, 1, Some(0)), wrong());
    assert_eq!(owners_counted(&body, 3, None), wrong());
    let homeless = IngestBody { logs: vec![line(None, None, None), line(Some(5), None, None)] };
    assert_eq!(ingest("hush", &None, &header("hush"), &homeless), wrong());
}

#[test]
fn stores_lines_at_their_time() {
    let body =
        IngestBody { logs: vec![line(Some(5), Some(1), Some(7)), line(None, None, None)] };
    let insert = |values| Statement {
        sql: "INSERT INTO logs (host_id, application_id, source, line, ts) VALUES (?1, ?2, ?3, ?4, ?5)".to_string(),
        values,
    };
    let sql_text = |t: &str| SqlValue::Text(t.to_string());
    assert_eq!(
        store_lines_at(&body, 1000),
        vec![
            insert(vec![
                SqlValue::Integer(1),
                SqlValue::Integer(5),
                sql_text("tv"),
                sql_text("ready"),
                SqlValue::Integer(7),
            ]),
            insert(vec![
                SqlValue::Null,
                SqlValue::Null,
                sql_text("tv"),
                sql_text("ready"),
                SqlValue::Integer(1000),
            ]),
        ]
    );
    let before = chrono::Utc::now().timestamp();
    let (now, statements) = store_lines(&body);
    let after = chrono::Utc::now().timestamp();
    assert!(before <= now && now <= after);
    assert_eq!(statements, store_lines_at(&body, now));
}

#[test]
fn shows_stored_lines_live() {
    let body = IngestBody { logs: vec![line(Some(5), Some(1), None)] };
    assert_eq!(
        live_lines(&body, 1000),
        object(vec![(
            "logs",
            Json::Array(vec![object(vec![
                ("host_id", number(1)),
                ("application_id", number(5)),
                ("source", text("tv")),
                ("line", text("ready")),
                ("ts", number(1000)),
            ])])
        )])
    );
    assert_eq!(
        stored(&body, true),
        IngestReply::Tree(object(vec![("inserted", number(1))]))
    );
    assert_eq!(stored(&body, false), IngestReply::Text(500, "failed to store logs"));
}
