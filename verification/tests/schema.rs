use akurai_monitor::json::JsonNumber;
use akurai_monitor::schema::{
    add_column, backfill, columns_query, create_tables, create_tables_at, default_rules,
    migrate_alert_events_fk, seed_alert_rules, ForeignKey, SchemaStep, EVENT_KEYS, LOCAL_HOST_ID,
    REBUILD_EVENTS, TABLES,
};
use akurai_monitor::sql::{SqlValue, Statement};
use rusqlite::types::Value;
use rusqlite::Connection;

fn bound(value: &SqlValue) -> Value {
    match value {
        SqlValue::Null => Value::Null,
        SqlValue::Integer(n) => Value::Integer(*n),
        SqlValue::Real(JsonNumber::PosInt(n)) => Value::Real(*n as f64),
        SqlValue::Real(JsonNumber::NegInt(n)) => Value::Real(*n as f64),
        SqlValue::Real(JsonNumber::Float(d)) => Value::Real(f64::from_bits(d.bits)),
        SqlValue::Text(t) => Value::Text(t.clone()),
    }
}

fn execute(conn: &Connection, statement: &Statement) {
    let values: Vec<Value> = statement.values.iter().map(bound).collect();
    conn.execute(&statement.sql, rusqlite::params_from_iter(values)).unwrap();
}

fn event_keys(conn: &Connection) -> Vec<ForeignKey> {
    let mut statement = conn.prepare(EVENT_KEYS).unwrap();
    statement
        .query_map([], |row| {
            Ok(ForeignKey {
                table: row.get(2)?,
                column: row.get(3)?,
                on_delete: row.get(6)?,
            })
        })
        .unwrap()
        .map(Result::unwrap)
        .collect()
}

fn apply(conn: &Connection, steps: Vec<SchemaStep>) {
    let mut local_host = None;
    for step in steps {
        match step {
            SchemaStep::Batch(sql, failure) => conn.execute_batch(&sql).expect(failure),
            SchemaStep::Execute(statement, _) => execute(conn, &statement),
            SchemaStep::AddColumn(table, column, definition) => {
                let names = table_columns(conn, table);
                if let Some(sql) = add_column(table, column, definition, &names) {
                    conn.execute_batch(&sql).unwrap();
                }
            }
            SchemaStep::ReadLocalHost(failure) => {
                local_host =
                    Some(conn.query_row(LOCAL_HOST_ID, [], |row| row.get(0)).expect(failure));
            }
            SchemaStep::Backfill(table, _) => execute(conn, &backfill(table, local_host.unwrap())),
            SchemaStep::RebuildEvents => {
                if let Some(sql) = migrate_alert_events_fk(&event_keys(conn)) {
                    conn.execute_batch(sql).unwrap();
                }
            }
        }
    }
}

fn table_columns(conn: &Connection, table: &str) -> Vec<String> {
    let mut statement = conn.prepare(&columns_query(table)).unwrap();
    statement.query_map([], |row| row.get(1)).unwrap().map(Result::unwrap).collect()
}

#[test]
fn migrates_legacy_tables_without_losing_alert_rules() {
    let conn = Connection::open_in_memory().unwrap();
    conn.execute_batch("PRAGMA foreign_keys = ON;").unwrap();
    conn.execute_batch(
        "
        CREATE TABLE metrics (
            id INTEGER PRIMARY KEY AUTOINCREMENT,
            name TEXT NOT NULL,
            value REAL NOT NULL,
            ts INTEGER NOT NULL
        );
        CREATE TABLE logs (
            id INTEGER PRIMARY KEY AUTOINCREMENT,
            source TEXT NOT NULL,
            line TEXT NOT NULL,
            ts INTEGER NOT NULL
        );
        CREATE TABLE alert_rules (
            id INTEGER PRIMARY KEY AUTOINCREMENT,
            name TEXT NOT NULL,
            metric_name TEXT NOT NULL,
            operator TEXT NOT NULL,
            threshold REAL NOT NULL,
            duration_secs INTEGER NOT NULL,
            enabled INTEGER NOT NULL DEFAULT 1
        );
        CREATE TABLE alert_events (
            id INTEGER PRIMARY KEY AUTOINCREMENT,
            rule_id INTEGER NOT NULL REFERENCES alert_rules(id),
            triggered_at INTEGER NOT NULL,
            resolved_at INTEGER,
            value REAL NOT NULL
        );
        INSERT INTO alert_rules
            (name, metric_name, operator, threshold, duration_secs)
        VALUES
            ('Disk Almost Full', 'disk./.used_pct', 'gt', 85, 60);
        INSERT INTO metrics (name, value, ts) VALUES ('cpu.usage', 50, 1);
        INSERT INTO logs (source, line, ts) VALUES ('syslog', 'ready', 1);
        INSERT INTO alert_events (rule_id, triggered_at, value) VALUES (1, 1, 90);
        ",
    )
    .unwrap();

    apply(&conn, create_tables());

    let metric_columns = table_columns(&conn, "metrics");
    let log_columns = table_columns(&conn, "logs");
    let alert_columns = table_columns(&conn, "alert_rules");
    assert!(metric_columns.contains(&"host_id".to_string()));
    assert!(metric_columns.contains(&"application_id".to_string()));
    assert!(log_columns.contains(&"host_id".to_string()));
    assert!(log_columns.contains(&"application_id".to_string()));
    assert!(alert_columns.contains(&"host_id".to_string()));
    assert!(alert_columns.contains(&"application_id".to_string()));

    let disk_metric: String = conn
        .query_row(
            "SELECT metric_name FROM alert_rules WHERE name = 'Disk Almost Full'",
            [],
            |row| row.get(0),
        )
        .unwrap();
    assert_eq!(disk_metric, "disk.root.used_pct");

    let local_hosts: i64 = conn
        .query_row("SELECT COUNT(*) FROM hosts WHERE name = 'local'", [], |row| row.get(0))
        .unwrap();
    assert_eq!(local_hosts, 1);

    for table in ["metrics", "logs", "alert_rules"] {
        let attributed: i64 = conn
            .query_row(
                &format!(
                    "SELECT COUNT(*) FROM {table}
                     WHERE host_id = (SELECT id FROM hosts WHERE name = 'local')"
                ),
                [],
                |row| row.get(0),
            )
            .unwrap();
        assert_eq!(attributed, 1, "{table} was not attributed to local host");
    }

    conn.execute("DELETE FROM alert_rules WHERE id = 1", []).unwrap();
    let events: i64 =
        conn.query_row("SELECT COUNT(*) FROM alert_events", [], |row| row.get(0)).unwrap();
    assert_eq!(events, 0);
}

#[test]
fn rejects_application_attribution_to_the_wrong_host() {
    let conn = Connection::open_in_memory().unwrap();
    conn.execute_batch("PRAGMA foreign_keys = ON;").unwrap();
    apply(&conn, create_tables());
    let now = chrono::Utc::now().timestamp();
    conn.execute(
        "INSERT INTO hosts (name, address, kind, enabled, created_at, updated_at)
         VALUES ('remote', '100.88.0.8', 'linux', 1, ?1, ?1)",
        [now],
    )
    .unwrap();
    let remote_host = conn.last_insert_rowid();
    conn.execute(
        "INSERT INTO applications
         (host_id, name, enabled, created_at, updated_at)
         VALUES (?1, 'remote-app', 1, ?2, ?2)",
        (remote_host, now),
    )
    .unwrap();
    let application_id = conn.last_insert_rowid();
    let local_host: i64 = conn
        .query_row("SELECT id FROM hosts WHERE name = 'local'", [], |row| row.get(0))
        .unwrap();

    let mismatch = conn.execute(
        "INSERT INTO metrics (host_id, application_id, name, value, ts)
         VALUES (?1, ?2, 'health.ready', 1, ?3)",
        (local_host, application_id, now),
    );
    assert!(mismatch.is_err());
    conn.execute(
        "INSERT INTO metrics (host_id, application_id, name, value, ts)
         VALUES (?1, ?2, 'health.ready', 1, ?3)",
        (remote_host, application_id, now),
    )
    .unwrap();

    let move_application = conn.execute(
        "UPDATE applications SET host_id = ?1 WHERE id = ?2",
        (local_host, application_id),
    );
    assert!(move_application.is_err());

    let ownership_triggers: i64 = conn
        .query_row(
            "SELECT COUNT(*) FROM sqlite_master
             WHERE type = 'trigger' AND name LIKE '%_application_host_%'",
            [],
            |row| row.get(0),
        )
        .unwrap();
    assert_eq!(ownership_triggers, 6);
}

#[test]
fn the_schema_can_be_applied_again() {
    let conn = Connection::open_in_memory().unwrap();
    conn.execute_batch("PRAGMA foreign_keys = ON;").unwrap();
    apply(&conn, create_tables_at(5));
    apply(&conn, create_tables_at(6));
    let (hosts, created): (i64, i64) = conn
        .query_row("SELECT COUNT(*), MAX(created_at) FROM hosts", [], |row| {
            Ok((row.get(0)?, row.get(1)?))
        })
        .unwrap();
    assert_eq!((hosts, created), (1, 5));
    assert_eq!(migrate_alert_events_fk(&event_keys(&conn)), None);
}

#[test]
fn plans_the_schema_in_order() {
    let steps = create_tables_at(5);
    assert_eq!(steps.len(), 19);
    assert_eq!(
        steps[0],
        SchemaStep::Batch(TABLES.to_string(), "failed to create tables")
    );
    assert_eq!(
        steps[1],
        SchemaStep::Execute(
            Statement {
                sql: "INSERT OR IGNORE INTO hosts (name, address, kind, enabled, created_at, updated_at) VALUES ('local', '127.0.0.1', 'linux', 1, ?1, ?1)".to_string(),
                values: vec![SqlValue::Integer(5)],
            },
            "failed to seed local host"
        )
    );
    assert_eq!(
        steps[6],
        SchemaStep::AddColumn(
            "alert_rules",
            "host_id",
            "INTEGER REFERENCES hosts(id) ON DELETE CASCADE"
        )
    );
    assert_eq!(steps[8], SchemaStep::ReadLocalHost("local host missing during migration"));
    assert_eq!(
        steps[10],
        SchemaStep::Backfill("logs", "failed to backfill local host attribution")
    );
    assert_eq!(steps[12], SchemaStep::RebuildEvents);
    assert!(matches!(&steps[18], SchemaStep::Batch(sql, "failed to create application move guard")
        if sql.contains("applications_host_move_guard")));
}

#[test]
fn adds_missing_columns() {
    let names = vec!["id".to_string(), "host_id".to_string()];
    assert_eq!(add_column("logs", "host_id", "INTEGER", &names), None);
    assert_eq!(
        add_column("logs", "application_id", "INTEGER", &names),
        Some("ALTER TABLE logs ADD COLUMN application_id INTEGER".to_string())
    );
    assert_eq!(columns_query("logs"), "PRAGMA table_info(logs)");
    assert_eq!(
        backfill("logs", 3),
        Statement {
            sql: "UPDATE logs SET host_id = ?1 WHERE host_id IS NULL".to_string(),
            values: vec![SqlValue::Integer(3)],
        }
    );
}

#[test]
fn rebuilds_events_that_do_not_go_with_their_rule() {
    let key = |table: &str, column: &str, on_delete: &str| ForeignKey {
        table: table.to_string(),
        column: column.to_string(),
        on_delete: on_delete.to_string(),
    };
    assert_eq!(migrate_alert_events_fk(&Vec::new()), Some(REBUILD_EVENTS));
    let plain = vec![
        key("alert_rules", "rule_id", "NO ACTION"),
        key("alert_rules", "other_id", "CASCADE"),
        key("hosts", "rule_id", "CASCADE"),
    ];
    assert_eq!(migrate_alert_events_fk(&plain), Some(REBUILD_EVENTS));
    let cascading =
        vec![key("hosts", "host_id", "SET NULL"), key("alert_rules", "rule_id", "CASCADE")];
    assert_eq!(migrate_alert_events_fk(&cascading), None);
}

#[test]
fn seeds_alert_rules_once() {
    assert_eq!(seed_alert_rules(Some(1)), None);
    assert_eq!(seed_alert_rules(Some(0)), Some(LOCAL_HOST_ID));
    assert_eq!(seed_alert_rules(None), Some(LOCAL_HOST_ID));

    let conn = Connection::open_in_memory().unwrap();
    apply(&conn, create_tables());
    let host: i64 = conn.query_row(LOCAL_HOST_ID, [], |row| row.get(0)).unwrap();
    for statement in default_rules(host) {
        execute(&conn, &statement);
    }
    let rules: Vec<(String, String, String, f64, i64, i64)> = conn
        .prepare("SELECT name, metric_name, operator, threshold, duration_secs, enabled FROM alert_rules ORDER BY id")
        .unwrap()
        .query_map([], |row| {
            Ok((row.get(0)?, row.get(1)?, row.get(2)?, row.get(3)?, row.get(4)?, row.get(5)?))
        })
        .unwrap()
        .map(Result::unwrap)
        .collect();
    let rule = |name: &str, metric: &str, threshold: f64, duration: i64| {
        (name.to_string(), metric.to_string(), "gt".to_string(), threshold, duration, 1)
    };
    assert_eq!(
        rules,
        vec![
            rule("High CPU", "cpu.usage", 90.0, 300),
            rule("High Memory", "mem.used_pct", 90.0, 300),
            rule("Disk Almost Full", "disk.root.used_pct", 85.0, 60),
        ]
    );
}
