//! The database schema: the tables, the migration of older databases, and the first records.
use crate::clock::{clock_time, utc_seconds};
use crate::json::JsonNumber;
use crate::sql::{
    statement, statement_views, text_value, value_views, SqlValue, SqlView, Statement,
    StatementView,
};
use crate::text::{same_text, text_views};
use vstd::prelude::*;
use vstd::string::*;

verus! {

/// Adds an alert rule.
pub const ADD_RULE: &'static str =
    "INSERT INTO alert_rules (host_id, name, metric_name, operator, threshold, duration_secs) VALUES (?1, ?2, ?3, ?4, ?5, ?6)";

/// The tables and the indexes that need no migration before them.
pub const TABLES: &'static str = "
CREATE TABLE IF NOT EXISTS hosts (
    id INTEGER PRIMARY KEY AUTOINCREMENT,
    name TEXT NOT NULL UNIQUE,
    address TEXT NOT NULL,
    kind TEXT NOT NULL DEFAULT 'linux',
    enabled INTEGER NOT NULL DEFAULT 1,
    created_at INTEGER NOT NULL,
    updated_at INTEGER NOT NULL
);

CREATE TABLE IF NOT EXISTS applications (
    id INTEGER PRIMARY KEY AUTOINCREMENT,
    host_id INTEGER NOT NULL REFERENCES hosts(id) ON DELETE CASCADE,
    name TEXT NOT NULL,
    service_name TEXT,
    health_url TEXT,
    enabled INTEGER NOT NULL DEFAULT 1,
    created_at INTEGER NOT NULL,
    updated_at INTEGER NOT NULL,
    UNIQUE(host_id, name)
);

CREATE TABLE IF NOT EXISTS metrics (
    id INTEGER PRIMARY KEY AUTOINCREMENT,
    host_id INTEGER REFERENCES hosts(id) ON DELETE SET NULL,
    application_id INTEGER REFERENCES applications(id) ON DELETE SET NULL,
    name TEXT NOT NULL,
    value REAL NOT NULL,
    ts INTEGER NOT NULL
);
CREATE INDEX IF NOT EXISTS idx_metrics_name_ts ON metrics(name, ts);

CREATE TABLE IF NOT EXISTS logs (
    id INTEGER PRIMARY KEY AUTOINCREMENT,
    host_id INTEGER REFERENCES hosts(id) ON DELETE SET NULL,
    application_id INTEGER REFERENCES applications(id) ON DELETE SET NULL,
    source TEXT NOT NULL,
    line TEXT NOT NULL,
    ts INTEGER NOT NULL
);
CREATE INDEX IF NOT EXISTS idx_logs_source_ts ON logs(source, ts);

CREATE TABLE IF NOT EXISTS alert_rules (
    id INTEGER PRIMARY KEY AUTOINCREMENT,
    host_id INTEGER REFERENCES hosts(id) ON DELETE CASCADE,
    application_id INTEGER REFERENCES applications(id) ON DELETE CASCADE,
    name TEXT NOT NULL,
    metric_name TEXT NOT NULL,
    operator TEXT NOT NULL,
    threshold REAL NOT NULL,
    duration_secs INTEGER NOT NULL,
    enabled INTEGER NOT NULL DEFAULT 1
);

CREATE TABLE IF NOT EXISTS alert_events (
    id INTEGER PRIMARY KEY AUTOINCREMENT,
    rule_id INTEGER NOT NULL REFERENCES alert_rules(id) ON DELETE CASCADE,
    triggered_at INTEGER NOT NULL,
    resolved_at INTEGER,
    value REAL NOT NULL
);

CREATE TABLE IF NOT EXISTS channels (
    id INTEGER PRIMARY KEY AUTOINCREMENT,
    name TEXT NOT NULL UNIQUE,
    kind TEXT NOT NULL,
    endpoint TEXT NOT NULL,
    token_env TEXT,
    enabled INTEGER NOT NULL DEFAULT 1,
    created_at INTEGER NOT NULL,
    updated_at INTEGER NOT NULL
);

CREATE TABLE IF NOT EXISTS recipients (
    id INTEGER PRIMARY KEY AUTOINCREMENT,
    channel_id INTEGER NOT NULL REFERENCES channels(id) ON DELETE CASCADE,
    name TEXT NOT NULL,
    target TEXT NOT NULL,
    enabled INTEGER NOT NULL DEFAULT 1,
    created_at INTEGER NOT NULL,
    updated_at INTEGER NOT NULL,
    UNIQUE(channel_id, target)
);
";

/// The indexes on the column that a migration adds.
pub const HOST_INDEXES: &'static str = "
CREATE INDEX IF NOT EXISTS idx_metrics_host_ts ON metrics(host_id, ts);
CREATE INDEX IF NOT EXISTS idx_logs_host_ts ON logs(host_id, ts);
";

/// Adds the host of this service, unless it is there.
pub const LOCAL_HOST: &'static str =
    "INSERT OR IGNORE INTO hosts (name, address, kind, enabled, created_at, updated_at) VALUES ('local', '127.0.0.1', 'linux', 1, ?1, ?1)";

/// Reads the id of the host of this service.
pub const LOCAL_HOST_ID: &'static str = "SELECT id FROM hosts WHERE name = 'local'";

/// Counts the alert rules.
pub const RULE_COUNT: &'static str = "SELECT COUNT(*) FROM alert_rules";

/// Gives the disk rule the name that its metric has now.
pub const DISK_METRIC: &'static str =
    "UPDATE alert_rules SET metric_name = 'disk.root.used_pct' WHERE metric_name = 'disk./.used_pct'";

/// Reads the foreign keys of the alert events.
pub const EVENT_KEYS: &'static str = "PRAGMA foreign_key_list(alert_events)";

/// Rebuilds the alert events, so that they go with their rule.
pub const REBUILD_EVENTS: &'static str = "
PRAGMA foreign_keys = OFF;
BEGIN IMMEDIATE;
DROP TABLE IF EXISTS alert_events_migrated;
CREATE TABLE alert_events_migrated (
    id INTEGER PRIMARY KEY AUTOINCREMENT,
    rule_id INTEGER NOT NULL REFERENCES alert_rules(id) ON DELETE CASCADE,
    triggered_at INTEGER NOT NULL,
    resolved_at INTEGER,
    value REAL NOT NULL
);
INSERT INTO alert_events_migrated (id, rule_id, triggered_at, resolved_at, value)
SELECT id, rule_id, triggered_at, resolved_at, value FROM alert_events;
DROP TABLE alert_events;
ALTER TABLE alert_events_migrated RENAME TO alert_events;
COMMIT;
PRAGMA foreign_keys = ON;
";

/// Undoes a rebuild that failed.
pub const UNDO_REBUILD: &'static str = "ROLLBACK; PRAGMA foreign_keys = ON;";

/// The condition and the body of an ownership trigger.
pub const OWNERSHIP: &'static str = "
WHEN NEW.application_id IS NOT NULL
  AND (
    NEW.host_id IS NULL
    OR NOT EXISTS (
        SELECT 1 FROM applications
        WHERE id = NEW.application_id AND host_id = NEW.host_id
    )
  )
BEGIN
    SELECT RAISE(ABORT, 'application does not belong to host');
END;
";

/// Keeps an application on its host while data is attributed to it.
pub const MOVE_GUARD: &'static str = "
CREATE TRIGGER IF NOT EXISTS applications_host_move_guard
BEFORE UPDATE OF host_id ON applications
WHEN NEW.host_id != OLD.host_id
  AND (
    EXISTS (SELECT 1 FROM metrics WHERE application_id = OLD.id)
    OR EXISTS (SELECT 1 FROM logs WHERE application_id = OLD.id)
    OR EXISTS (SELECT 1 FROM alert_rules WHERE application_id = OLD.id)
  )
BEGIN
    SELECT RAISE(ABORT, 'application host cannot change while attributed data exists');
END;
";

/// A step towards the schema. Each fails with the message that it bears.
#[derive(Debug, PartialEq)]
pub enum SchemaStep {
    /// Run a list of statements.
    Batch(String, &'static str),
    /// Run one statement.
    Execute(Statement, &'static str),
    /// Add a column to a table, unless it is there: the table, the column and its definition.
    AddColumn(&'static str, &'static str, &'static str),
    /// Read the id of the local host.
    ReadLocalHost(&'static str),
    /// Attribute the records of a table that have no host to the local host.
    Backfill(&'static str, &'static str),
    /// Have the alert events go with their rule, unless they do.
    RebuildEvents,
}

/// The mathematical value of a [`SchemaStep`].
#[verifier::ext_equal]
pub enum SchemaStepView {
    Batch(Seq<char>, Seq<char>),
    Execute(StatementView, Seq<char>),
    AddColumn(Seq<char>, Seq<char>, Seq<char>),
    ReadLocalHost(Seq<char>),
    Backfill(Seq<char>, Seq<char>),
    RebuildEvents,
}

impl View for SchemaStep {
    type V = SchemaStepView;

    open spec fn view(&self) -> SchemaStepView {
        match self {
            SchemaStep::Batch(sql, failure) => SchemaStepView::Batch(sql@, failure@),
            SchemaStep::Execute(statement, failure) => SchemaStepView::Execute(
                statement@,
                failure@,
            ),
            SchemaStep::AddColumn(table, column, definition) => SchemaStepView::AddColumn(
                table@,
                column@,
                definition@,
            ),
            SchemaStep::ReadLocalHost(failure) => SchemaStepView::ReadLocalHost(failure@),
            SchemaStep::Backfill(table, failure) => SchemaStepView::Backfill(table@, failure@),
            SchemaStep::RebuildEvents => SchemaStepView::RebuildEvents,
        }
    }
}

/// The views of a list of steps.
pub open spec fn step_views(steps: Seq<SchemaStep>) -> Seq<SchemaStepView> {
    steps.map_values(|step: SchemaStep| step@)
}

fn add_step(steps: &mut Vec<SchemaStep>, step: SchemaStep)
    ensures
        step_views(final(steps)@) == step_views(old(steps)@).push(step@),
{
    steps.push(step);
    assert(step_views(steps@) =~= step_views(old(steps)@).push(step@));
}

/// The step that adds the local host.
pub open spec fn local_host_step(now: i64) -> SchemaStepView {
    SchemaStepView::Execute(
        StatementView { sql: LOCAL_HOST@, values: seq![SqlView::Integer(now)] },
        "failed to seed local host"@,
    )
}

/// Adds the local host, as of `now`.
pub fn seed_local_host(now: i64) -> (step: SchemaStep)
    ensures
        step@ == local_host_step(now),
{
    let mut values: Vec<SqlValue> = Vec::new();
    values.push(SqlValue::Integer(now));
    assert(value_views(values@) =~= seq![SqlView::Integer(now)]);
    SchemaStep::Execute(statement(LOCAL_HOST, values), "failed to seed local host")
}

/// The query for the names of a table's columns.
pub open spec fn columns_sql(table: Seq<char>) -> Seq<char> {
    "PRAGMA table_info("@ + table + ")"@
}

/// The query for the names of a table's columns.
pub fn columns_query(table: &str) -> (sql: String)
    ensures
        sql@ == "PRAGMA table_info("@ + table@ + ")"@,
        sql@ == columns_sql(table@),
{
    let mut sql = "PRAGMA table_info(".to_owned();
    sql.append(table);
    sql.append(")");
    sql
}

/// The statement that adds a column.
pub open spec fn alter_table(table: Seq<char>, column: Seq<char>, definition: Seq<char>) -> Seq<char> {
    "ALTER TABLE "@ + table + " ADD COLUMN "@ + column + " "@ + definition
}

/// The statement that a table with these columns needs to have the column; none where it has
/// it.
pub open spec fn column_addition(
    table: Seq<char>,
    column: Seq<char>,
    definition: Seq<char>,
    names: Seq<Seq<char>>,
) -> Option<Seq<char>> {
    if names.contains(column) {
        None
    } else {
        Some(alter_table(table, column, definition))
    }
}

/// Adds a column to a table with these columns: the statement to run, unless it has it.
pub fn add_column(table: &str, column: &str, definition: &str, names: &Vec<String>) -> (sql: Option<
    String,
>)
    ensures
        crate::text::optional_text(sql) == column_addition(
            table@,
            column@,
            definition@,
            text_views(names@),
        ),
{
    let ghost views = text_views(names@);
    let mut i: usize = 0;
    while i < names.len()
        invariant
            i <= names@.len(),
            views == text_views(names@),
            forall|j: int| 0 <= j < i ==> (#[trigger] views[j]) != column@,
        decreases names@.len() - i,
    {
        if same_text(names[i].as_str(), column) {
            assert(views[i as int] == column@);
            return None;
        }
        i = i + 1;
    }
    let mut sql = "ALTER TABLE ".to_owned();
    sql.append(table);
    sql.append(" ADD COLUMN ");
    sql.append(column);
    sql.append(" ");
    sql.append(definition);
    Some(sql)
}

/// The statement that attributes the records of a table that have no host to this one.
pub open spec fn backfill_statement(table: Seq<char>, host_id: i64) -> StatementView {
    StatementView {
        sql: "UPDATE "@ + table + " SET host_id = ?1 WHERE host_id IS NULL"@,
        values: seq![SqlView::Integer(host_id)],
    }
}

/// Attributes the records of a table that have no host to this one.
pub fn backfill(table: &str, host_id: i64) -> (result: Statement)
    ensures
        result@ == backfill_statement(table@, host_id),
{
    let mut sql = "UPDATE ".to_owned();
    sql.append(table);
    sql.append(" SET host_id = ?1 WHERE host_id IS NULL");
    let mut values: Vec<SqlValue> = Vec::new();
    values.push(SqlValue::Integer(host_id));
    assert(value_views(values@) =~= backfill_statement(table@, host_id).values);
    Statement { sql, values }
}

/// A foreign key: the table that it refers to, its column, and what a deletion there does.
pub struct ForeignKey {
    pub table: String,
    pub column: String,
    pub on_delete: String,
}

/// The key has the alert events go with their rule.
pub open spec fn cascading(key: ForeignKey) -> bool {
    key.table@ == "alert_rules"@ && key.column@ == "rule_id"@ && key.on_delete@ == "CASCADE"@
}

/// None of the keys has the alert events go with their rule.
pub open spec fn rebuild_needed(keys: Seq<ForeignKey>) -> bool {
    forall|i: int| 0 <= i < keys.len() ==> !cascading(#[trigger] keys[i])
}

/// Has the alert events go with their rule, given their foreign keys: the statements to run,
/// unless they do.
pub fn migrate_alert_events_fk(keys: &Vec<ForeignKey>) -> (sql: Option<&'static str>)
    ensures
        sql is None <==> exists|i: int| 0 <= i < keys@.len() && cascading(#[trigger] keys@[i]),
        sql is Some <==> rebuild_needed(keys@),
        sql is Some ==> sql->0@ == REBUILD_EVENTS@,
{
    let mut i: usize = 0;
    while i < keys.len()
        invariant
            i <= keys@.len(),
            forall|j: int| 0 <= j < i ==> !cascading(#[trigger] keys@[j]),
        decreases keys@.len() - i,
    {
        let key = &keys[i];
        if same_text(key.table.as_str(), "alert_rules") && same_text(key.column.as_str(), "rule_id")
            && same_text(key.on_delete.as_str(), "CASCADE") {
            assert(cascading(keys@[i as int]));
            return None;
        }
        i = i + 1;
    }
    Some(REBUILD_EVENTS)
}

/// The migration of a database that knows no hosts and applications: the columns that
/// attribute records to them, the attribution of the records that are there to the local host,
/// and what else has changed.
pub open spec fn migration_plan() -> Seq<SchemaStepView> {
    seq![
        SchemaStepView::AddColumn(
            "metrics"@,
            "host_id"@,
            "INTEGER REFERENCES hosts(id) ON DELETE SET NULL"@,
        ),
        SchemaStepView::AddColumn(
            "metrics"@,
            "application_id"@,
            "INTEGER REFERENCES applications(id) ON DELETE SET NULL"@,
        ),
        SchemaStepView::AddColumn(
            "logs"@,
            "host_id"@,
            "INTEGER REFERENCES hosts(id) ON DELETE SET NULL"@,
        ),
        SchemaStepView::AddColumn(
            "logs"@,
            "application_id"@,
            "INTEGER REFERENCES applications(id) ON DELETE SET NULL"@,
        ),
        SchemaStepView::AddColumn(
            "alert_rules"@,
            "host_id"@,
            "INTEGER REFERENCES hosts(id) ON DELETE CASCADE"@,
        ),
        SchemaStepView::AddColumn(
            "alert_rules"@,
            "application_id"@,
            "INTEGER REFERENCES applications(id) ON DELETE CASCADE"@,
        ),
        SchemaStepView::ReadLocalHost("local host missing during migration"@),
        SchemaStepView::Backfill("metrics"@, "failed to backfill local host attribution"@),
        SchemaStepView::Backfill("logs"@, "failed to backfill local host attribution"@),
        SchemaStepView::Backfill("alert_rules"@, "failed to backfill local host attribution"@),
        SchemaStepView::RebuildEvents,
        SchemaStepView::Execute(
            StatementView { sql: DISK_METRIC@, values: seq![] },
            "failed to migrate disk alert rule"@,
        ),
    ]
}

fn migrate_legacy_tables(steps: &mut Vec<SchemaStep>)
    ensures
        step_views(final(steps)@) == step_views(old(steps)@) + migration_plan(),
{
    let host: &'static str = "INTEGER REFERENCES hosts(id) ON DELETE SET NULL";
    let application: &'static str = "INTEGER REFERENCES applications(id) ON DELETE SET NULL";
    add_step(steps, SchemaStep::AddColumn("metrics", "host_id", host));
    add_step(steps, SchemaStep::AddColumn("metrics", "application_id", application));
    add_step(steps, SchemaStep::AddColumn("logs", "host_id", host));
    add_step(steps, SchemaStep::AddColumn("logs", "application_id", application));
    add_step(
        steps,
        SchemaStep::AddColumn(
            "alert_rules",
            "host_id",
            "INTEGER REFERENCES hosts(id) ON DELETE CASCADE",
        ),
    );
    add_step(
        steps,
        SchemaStep::AddColumn(
            "alert_rules",
            "application_id",
            "INTEGER REFERENCES applications(id) ON DELETE CASCADE",
        ),
    );
    add_step(steps, SchemaStep::ReadLocalHost("local host missing during migration"));
    let failure: &'static str = "failed to backfill local host attribution";
    add_step(steps, SchemaStep::Backfill("metrics", failure));
    add_step(steps, SchemaStep::Backfill("logs", failure));
    add_step(steps, SchemaStep::Backfill("alert_rules", failure));
    add_step(steps, SchemaStep::RebuildEvents);
    let values: Vec<SqlValue> = Vec::new();
    assert(value_views(values@) =~= seq![]);
    add_step(
        steps,
        SchemaStep::Execute(statement(DISK_METRIC, values), "failed to migrate disk alert rule"),
    );
    assert(step_views(steps@) =~= step_views(old(steps)@) + migration_plan());
}

/// The triggers that keep the records of a table from naming an application that is not on
/// their host.
pub open spec fn ownership_triggers(table: Seq<char>) -> Seq<char> {
    "CREATE TRIGGER IF NOT EXISTS "@ + table + "_application_host_insert BEFORE INSERT ON "@ + table
        + OWNERSHIP@ + "CREATE TRIGGER IF NOT EXISTS "@ + table
        + "_application_host_update BEFORE UPDATE OF host_id, application_id ON "@ + table
        + OWNERSHIP@
}

fn table_triggers(table: &str) -> (step: SchemaStep)
    ensures
        step@ == SchemaStepView::Batch(
            ownership_triggers(table@),
            "failed to create application ownership triggers"@,
        ),
{
    let mut sql = "CREATE TRIGGER IF NOT EXISTS ".to_owned();
    sql.append(table);
    sql.append("_application_host_insert BEFORE INSERT ON ");
    sql.append(table);
    sql.append(OWNERSHIP);
    sql.append("CREATE TRIGGER IF NOT EXISTS ");
    sql.append(table);
    sql.append("_application_host_update BEFORE UPDATE OF host_id, application_id ON ");
    sql.append(table);
    sql.append(OWNERSHIP);
    SchemaStep::Batch(sql, "failed to create application ownership triggers")
}

/// The steps that create the triggers.
pub open spec fn trigger_plan() -> Seq<SchemaStepView> {
    let failure = "failed to create application ownership triggers"@;
    seq![
        SchemaStepView::Batch(ownership_triggers("metrics"@), failure),
        SchemaStepView::Batch(ownership_triggers("logs"@), failure),
        SchemaStepView::Batch(ownership_triggers("alert_rules"@), failure),
        SchemaStepView::Batch(MOVE_GUARD@, "failed to create application move guard"@),
    ]
}

fn create_application_host_triggers(steps: &mut Vec<SchemaStep>)
    ensures
        step_views(final(steps)@) == step_views(old(steps)@) + trigger_plan(),
{
    add_step(steps, table_triggers("metrics"));
    add_step(steps, table_triggers("logs"));
    add_step(steps, table_triggers("alert_rules"));
    add_step(
        steps,
        SchemaStep::Batch(MOVE_GUARD.to_owned(), "failed to create application move guard"),
    );
    assert(step_views(steps@) =~= step_views(old(steps)@) + trigger_plan());
}

/// The steps that bring a database to the schema at `now`.
pub open spec fn schema_plan(now: i64) -> Seq<SchemaStepView> {
    seq![
        SchemaStepView::Batch(TABLES@, "failed to create tables"@),
        local_host_step(now),
    ] + migration_plan() + seq![
        SchemaStepView::Batch(HOST_INDEXES@, "failed to create host indexes"@),
    ] + trigger_plan()
}

/// Brings a database to the schema at `now`: the steps to take, in order.
pub fn create_tables_at(now: i64) -> (steps: Vec<SchemaStep>)
    ensures
        step_views(steps@) == schema_plan(now),
{
    let mut steps: Vec<SchemaStep> = Vec::new();
    add_step(&mut steps, SchemaStep::Batch(TABLES.to_owned(), "failed to create tables"));
    add_step(&mut steps, seed_local_host(now));
    assert(step_views(steps@) =~= seq![
        SchemaStepView::Batch(TABLES@, "failed to create tables"@),
        local_host_step(now),
    ]);
    migrate_legacy_tables(&mut steps);
    let ghost before = step_views(steps@);
    add_step(
        &mut steps,
        SchemaStep::Batch(HOST_INDEXES.to_owned(), "failed to create host indexes"),
    );
    assert(step_views(steps@) =~= before + seq![
        SchemaStepView::Batch(HOST_INDEXES@, "failed to create host indexes"@),
    ]);
    create_application_host_triggers(&mut steps);
    steps
}

/// Brings a database to the schema now: the steps to take, in order.
pub fn create_tables() -> (steps: Vec<SchemaStep>)
    ensures
        exists|now: i64| clock_time(now) && step_views(steps@) == #[trigger] schema_plan(now),
{
    create_tables_at(utc_seconds())
}

/// The first alert rules are still to be added.
pub open spec fn seeding_needed(count: Option<i64>) -> bool {
    count is None || count->0 <= 0
}

/// Seeds the alert rules, given how many there are: the query for the local host, to which they
/// are attributed, where there is none yet. A count that could not be read stands for zero.
pub fn seed_alert_rules(count: Option<i64>) -> (query: Option<&'static str>)
    ensures
        query is Some <==> count is None || count->0 <= 0,
        query is Some <==> seeding_needed(count),
        query is Some ==> query->0@ == LOCAL_HOST_ID@,
{
    let seeded = match count {
        Some(n) => n > 0,
        None => false,
    };
    if seeded {
        None
    } else {
        Some(LOCAL_HOST_ID)
    }
}

/// The statement that adds an alert rule to a host.
pub open spec fn rule_statement(
    host_id: i64,
    name: Seq<char>,
    metric: Seq<char>,
    operator: Seq<char>,
    threshold: u64,
    duration: i64,
) -> StatementView {
    StatementView {
        sql: ADD_RULE@,
        values: seq![
            SqlView::Integer(host_id),
            SqlView::Text(name),
            SqlView::Text(metric),
            SqlView::Text(operator),
            SqlView::Real(JsonNumber::PosInt(threshold)),
            SqlView::Integer(duration),
        ],
    }
}

fn rule(
    host_id: i64,
    name: &str,
    metric: &str,
    operator: &str,
    threshold: u64,
    duration: i64,
) -> (result: Statement)
    ensures
        result@ == rule_statement(host_id, name@, metric@, operator@, threshold, duration),
{
    let mut values: Vec<SqlValue> = Vec::new();
    values.push(SqlValue::Integer(host_id));
    values.push(text_value(name));
    values.push(text_value(metric));
    values.push(text_value(operator));
    values.push(SqlValue::Real(JsonNumber::PosInt(threshold)));
    values.push(SqlValue::Integer(duration));
    assert(value_views(values@) =~= rule_statement(
        host_id,
        name@,
        metric@,
        operator@,
        threshold,
        duration,
    ).values);
    statement(ADD_RULE, values)
}

/// The statements that add the first alert rules.
pub open spec fn first_rules(host_id: i64) -> Seq<StatementView> {
    seq![
        rule_statement(host_id, "High CPU"@, "cpu.usage"@, "gt"@, 90, 300),
        rule_statement(host_id, "High Memory"@, "mem.used_pct"@, "gt"@, 90, 300),
        rule_statement(host_id, "Disk Almost Full"@, "disk.root.used_pct"@, "gt"@, 85, 60),
    ]
}

/// The statements that add the first alert rules to the local host.
pub fn default_rules(host_id: i64) -> (statements: Vec<Statement>)
    ensures
        statement_views(statements@) == first_rules(host_id),
{
    let mut statements: Vec<Statement> = Vec::new();
    statements.push(rule(host_id, "High CPU", "cpu.usage", "gt", 90, 300));
    statements.push(rule(host_id, "High Memory", "mem.used_pct", "gt", 90, 300));
    statements.push(rule(host_id, "Disk Almost Full", "disk.root.used_pct", "gt", 85, 60));
    assert(statement_views(statements@) =~= first_rules(host_id));
    statements
}

/// A table whose records are attributed to a host and an application.
pub open spec fn attributed(table: Seq<char>) -> bool {
    table == "metrics"@ || table == "logs"@ || table == "alert_rules"@
}

/// The plan attributes each table: it adds both columns, then attributes the records without a
/// host to the local host, and guards the table behind that.
pub proof fn law_every_attributed_table_is_migrated(now: i64, table: Seq<char>)
    requires
        attributed(table),
    ensures
        exists|host: int, application: int, filled: int, guarded: int|
            #![trigger schema_plan(now)[host], schema_plan(now)[application], schema_plan(now)[filled], schema_plan(now)[guarded]]
            {
                let plan = schema_plan(now);
                &&& 0 <= host < filled < guarded < plan.len()
                &&& 0 <= application < filled
                &&& plan[host] matches SchemaStepView::AddColumn(t, c, _) && t == table && c
                    == "host_id"@
                &&& plan[application] matches SchemaStepView::AddColumn(t, c, _) && t == table && c
                    == "application_id"@
                &&& plan[filled] matches SchemaStepView::Backfill(t, _) && t == table
                &&& plan[guarded] matches SchemaStepView::Batch(sql, _) && sql
                    == ownership_triggers(table)
            },
{
    let plan = schema_plan(now);
    assert(plan.len() == 19);
    if table == "metrics"@ {
        let at = (plan[2], plan[3], plan[9], plan[15]);
    } else if table == "logs"@ {
        let at = (plan[4], plan[5], plan[10], plan[16]);
    } else {
        let at = (plan[6], plan[7], plan[11], plan[17]);
    }
}

/// The local host is there before its id is read, and its id is read before records are
/// attributed to it.
pub proof fn law_local_host_comes_first(now: i64, i: int, j: int)
    requires
        0 <= i < schema_plan(now).len(),
        0 <= j < schema_plan(now).len(),
        schema_plan(now)[i] is ReadLocalHost,
        schema_plan(now)[j] is Backfill,
    ensures
        schema_plan(now)[1] == local_host_step(now),
        1 < i < j,
{
    let plan = schema_plan(now);
    assert(plan.len() == 19);
    assert(plan[8] is ReadLocalHost);
    assert(plan[9] is Backfill && plan[10] is Backfill && plan[11] is Backfill);
    assert(i == 8);
    assert(j == 9 || j == 10 || j == 11);
}

/// A table that has been given a column is not given it again.
pub proof fn law_columns_are_added_once(
    table: Seq<char>,
    column: Seq<char>,
    definition: Seq<char>,
    names: Seq<Seq<char>>,
)
    ensures
        column_addition(table, column, definition, names.push(column)) is None,
{
    assert(names.push(column)[names.len() as int] == column);
}

/// A table lacks a column exactly when a statement is needed to add it, and that statement names
/// the table, then the column, then its definition.
pub proof fn law_missing_columns_are_added(
    table: Seq<char>,
    column: Seq<char>,
    definition: Seq<char>,
    names: Seq<Seq<char>>,
)
    ensures
        column_addition(table, column, definition, names) is None <==> exists|i: int|
            0 <= i < names.len() && #[trigger] names[i] == column,
        column_addition(table, column, definition, names) matches Some(sql) ==> {
            let head = "ALTER TABLE "@ + table + " ADD COLUMN "@ + column;
            let tail = " "@ + definition;
            &&& head.is_prefix_of(sql)
            &&& tail.is_suffix_of(sql)
            &&& sql.len() == head.len() + tail.len()
        },
{
    let sql = alter_table(table, column, definition);
    let head = "ALTER TABLE "@ + table + " ADD COLUMN "@ + column;
    let tail = " "@ + definition;
    assert(sql =~= head + tail);
    assert(sql.take(head.len() as int) =~= head);
    assert(sql.skip(head.len() as int) =~= tail);
}

/// The columns that a migration adds are the two that attribute a record: the host refers to the
/// hosts and the application to the applications. An alert rule goes with them; a metric or a log
/// line stays without.
pub proof fn law_attributing_columns_refer_to_their_owners(now: i64, i: int)
    requires
        0 <= i < schema_plan(now).len(),
    ensures
        schema_plan(now)[i] matches SchemaStepView::AddColumn(table, column, definition) ==> {
            &&& table == "metrics"@ || table == "logs"@ || table == "alert_rules"@
            &&& column == "host_id"@ || column == "application_id"@
            &&& definition == if table == "alert_rules"@ {
                if column == "host_id"@ {
                    "INTEGER REFERENCES hosts(id) ON DELETE CASCADE"@
                } else {
                    "INTEGER REFERENCES applications(id) ON DELETE CASCADE"@
                }
            } else {
                if column == "host_id"@ {
                    "INTEGER REFERENCES hosts(id) ON DELETE SET NULL"@
                } else {
                    "INTEGER REFERENCES applications(id) ON DELETE SET NULL"@
                }
            }
        },
        schema_plan(now)[i] matches SchemaStepView::Backfill(table, failure) ==> attributed(table)
            && failure == "failed to backfill local host attribution"@,
        schema_plan(now)[i] matches SchemaStepView::ReadLocalHost(failure) ==> failure
            == "local host missing during migration"@,
{
    reveal_strlit("metrics");
    reveal_strlit("logs");
    reveal_strlit("alert_rules");
    reveal_strlit("host_id");
    reveal_strlit("application_id");
    assert("metrics"@.len() == 7);
    assert("logs"@.len() == 4);
    assert("alert_rules"@.len() == 11);
    assert("host_id"@.len() == 7);
    assert("application_id"@.len() == 14);
    assert("metrics"@[0] != "host_id"@[0]);
    let plan = schema_plan(now);
    assert(plan.len() == 19);
    let steps = (plan[0], plan[1], plan[2], plan[3], plan[4], plan[5], plan[6], plan[7],
        plan[8], plan[9]);
    let more = (plan[10], plan[11], plan[12], plan[13], plan[14], plan[15], plan[16], plan[17],
        plan[18]);
    assert(i == 0 || i == 1 || i == 2 || i == 3 || i == 4 || i == 5 || i == 6 || i == 7 || i == 8
        || i
        == 9 || i == 10 || i == 11 || i == 12 || i == 13 || i == 14 || i == 15 || i == 16 || i == 17
        || i == 18);
}

/// Only records without a host are attributed to the local one, by its id.
pub proof fn law_only_records_without_a_host_are_attributed(table: Seq<char>, host_id: i64)
    ensures
        ({
            let backfill = backfill_statement(table, host_id);
            let head = "UPDATE "@ + table;
            let tail = " SET host_id = ?1 WHERE host_id IS NULL"@;
            &&& head.is_prefix_of(backfill.sql)
            &&& tail.is_suffix_of(backfill.sql)
            &&& backfill.sql.len() == head.len() + tail.len()
            &&& backfill.values.len() == 1
            &&& backfill.values[0] == SqlView::Integer(host_id)
        }),
{
    let sql = backfill_statement(table, host_id).sql;
    let head = "UPDATE "@ + table;
    assert(sql.take(head.len() as int) =~= head);
    assert(sql.skip(head.len() as int) =~= " SET host_id = ?1 WHERE host_id IS NULL"@);
}

/// Alert events go with their rule by a key of theirs on the rules, in the column of the rule,
/// that cascades; no other key will do.
pub proof fn law_events_go_with_their_rule_by_one_key(key: ForeignKey)
    ensures
        cascading(key) ==> key.table@ == "alert_rules"@ && key.column@ == "rule_id"@,
        cascading(key) ==> key.on_delete@ == "CASCADE"@,
        key.table@ == "alert_rules"@ && key.column@ == "rule_id"@ && key.on_delete@ == "CASCADE"@
            ==> cascading(key),
{
}

/// The first rules are those of the local host: each is bound to its id, and watches for what is
/// above a threshold for some time.
pub proof fn law_first_rules_belong_to_the_local_host(host_id: i64, i: int)
    requires
        0 <= i < first_rules(host_id).len(),
    ensures
        first_rules(host_id).len() == 3,
        ({
            let rule = first_rules(host_id)[i];
            &&& rule.sql
                == "INSERT INTO alert_rules (host_id, name, metric_name, operator, threshold, duration_secs) VALUES (?1, ?2, ?3, ?4, ?5, ?6)"@
            &&& rule.values.len() == 6
            &&& rule.values[0] == SqlView::Integer(host_id)
            &&& rule.values[3] == SqlView::Text("gt"@)
            &&& i == 0 ==> rule.values[1] == SqlView::Text("High CPU"@) && rule.values[2]
                == SqlView::Text("cpu.usage"@)
            &&& i == 1 ==> rule.values[1] == SqlView::Text("High Memory"@) && rule.values[2]
                == SqlView::Text("mem.used_pct"@)
            &&& i == 2 ==> rule.values[1] == SqlView::Text("Disk Almost Full"@) && rule.values[2]
                == SqlView::Text("disk.root.used_pct"@)
            &&& rule.values[4] == SqlView::Real(
                JsonNumber::PosInt(
                    if i < 2 {
                        90
                    } else {
                        85
                    },
                ),
            )
            &&& rule.values[5] == SqlView::Integer(
                if i < 2 {
                    300
                } else {
                    60
                },
            )
        }),
{
}

/// The triggers of a table guard both its insertions and the changes of its attribution, each
/// under a name of the table's own, by the same condition.
pub proof fn law_tables_are_guarded_on_insert_and_update(table: Seq<char>)
    ensures
        ({
            let sql = ownership_triggers(table);
            let insert = "CREATE TRIGGER IF NOT EXISTS "@ + table
                + "_application_host_insert BEFORE INSERT ON "@ + table;
            let update = "CREATE TRIGGER IF NOT EXISTS "@ + table
                + "_application_host_update BEFORE UPDATE OF host_id, application_id ON "@ + table;
            let first = insert + OWNERSHIP@;
            let second = update + OWNERSHIP@;
            &&& first.is_prefix_of(sql)
            &&& second.is_suffix_of(sql)
            &&& sql.len() == first.len() + second.len()
        }),
        OWNERSHIP@ == "
WHEN NEW.application_id IS NOT NULL
  AND (
    NEW.host_id IS NULL
    OR NOT EXISTS (
        SELECT 1 FROM applications
        WHERE id = NEW.application_id AND host_id = NEW.host_id
    )
  )
BEGIN
    SELECT RAISE(ABORT, 'application does not belong to host');
END;
"@,
{
    let sql = ownership_triggers(table);
    let first = "CREATE TRIGGER IF NOT EXISTS "@ + table
        + "_application_host_insert BEFORE INSERT ON "@ + table + OWNERSHIP@;
    let second = "CREATE TRIGGER IF NOT EXISTS "@ + table
        + "_application_host_update BEFORE UPDATE OF host_id, application_id ON "@ + table
        + OWNERSHIP@;
    assert(sql =~= first + second);
    assert(sql.take(first.len() as int) =~= first);
    assert(sql.skip(first.len() as int) =~= second);
}

/// At any time the plan begins with the local host, as of that time, behind the tables; it gives
/// the disk rule its new metric behind the rebuild of the events; and it ends with the guard that
/// keeps an application on its host while anything is attributed to it.
pub proof fn law_the_plan_begins_and_ends_so(now: i64)
    ensures
        ({
            let plan = schema_plan(now);
            &&& plan.len() == 19
            &&& plan[1] == SchemaStepView::Execute(
                StatementView {
                    sql: "INSERT OR IGNORE INTO hosts (name, address, kind, enabled, created_at, updated_at) VALUES ('local', '127.0.0.1', 'linux', 1, ?1, ?1)"@,
                    values: seq![SqlView::Integer(now)],
                },
                "failed to seed local host"@,
            )
            &&& plan[12] is RebuildEvents
            &&& plan[13] == SchemaStepView::Execute(
                StatementView {
                    sql: "UPDATE alert_rules SET metric_name = 'disk.root.used_pct' WHERE metric_name = 'disk./.used_pct'"@,
                    values: seq![],
                },
                "failed to migrate disk alert rule"@,
            )
            &&& plan[14] == SchemaStepView::Batch("
CREATE INDEX IF NOT EXISTS idx_metrics_host_ts ON metrics(host_id, ts);
CREATE INDEX IF NOT EXISTS idx_logs_host_ts ON logs(host_id, ts);
"@, "failed to create host indexes"@)
            &&& plan[15] == SchemaStepView::Batch(
                ownership_triggers("metrics"@),
                "failed to create application ownership triggers"@,
            )
            &&& plan[16] == SchemaStepView::Batch(
                ownership_triggers("logs"@),
                "failed to create application ownership triggers"@,
            )
            &&& plan[17] == SchemaStepView::Batch(
                ownership_triggers("alert_rules"@),
                "failed to create application ownership triggers"@,
            )
            &&& plan[18] == SchemaStepView::Batch("
CREATE TRIGGER IF NOT EXISTS applications_host_move_guard
BEFORE UPDATE OF host_id ON applications
WHEN NEW.host_id != OLD.host_id
  AND (
    EXISTS (SELECT 1 FROM metrics WHERE application_id = OLD.id)
    OR EXISTS (SELECT 1 FROM logs WHERE application_id = OLD.id)
    OR EXISTS (SELECT 1 FROM alert_rules WHERE application_id = OLD.id)
  )
BEGIN
    SELECT RAISE(ABORT, 'application host cannot change while attributed data exists');
END;
"@, "failed to create application move guard"@)
        }),
        LOCAL_HOST_ID@ == "SELECT id FROM hosts WHERE name = 'local'"@,
        RULE_COUNT@ == "SELECT COUNT(*) FROM alert_rules"@,
        EVENT_KEYS@ == "PRAGMA foreign_key_list(alert_events)"@,
        UNDO_REBUILD@ == "ROLLBACK; PRAGMA foreign_keys = ON;"@,
{
    let plan = schema_plan(now);
    assert(plan[13]->Execute_0.values =~= seq![]);
    assert(plan[1]->Execute_0.values =~= seq![SqlView::Integer(now)]);
}

/// At any time the plan begins with these tables: each record has an id of its own, names are
/// unique where records are told apart by them, and what belongs to a record goes with it.
pub proof fn law_the_tables_of_the_plan(now: i64)
    ensures
        schema_plan(now)[0] == SchemaStepView::Batch("
CREATE TABLE IF NOT EXISTS hosts (
    id INTEGER PRIMARY KEY AUTOINCREMENT,
    name TEXT NOT NULL UNIQUE,
    address TEXT NOT NULL,
    kind TEXT NOT NULL DEFAULT 'linux',
    enabled INTEGER NOT NULL DEFAULT 1,
    created_at INTEGER NOT NULL,
    updated_at INTEGER NOT NULL
);

CREATE TABLE IF NOT EXISTS applications (
    id INTEGER PRIMARY KEY AUTOINCREMENT,
    host_id INTEGER NOT NULL REFERENCES hosts(id) ON DELETE CASCADE,
    name TEXT NOT NULL,
    service_name TEXT,
    health_url TEXT,
    enabled INTEGER NOT NULL DEFAULT 1,
    created_at INTEGER NOT NULL,
    updated_at INTEGER NOT NULL,
    UNIQUE(host_id, name)
);

CREATE TABLE IF NOT EXISTS metrics (
    id INTEGER PRIMARY KEY AUTOINCREMENT,
    host_id INTEGER REFERENCES hosts(id) ON DELETE SET NULL,
    application_id INTEGER REFERENCES applications(id) ON DELETE SET NULL,
    name TEXT NOT NULL,
    value REAL NOT NULL,
    ts INTEGER NOT NULL
);
CREATE INDEX IF NOT EXISTS idx_metrics_name_ts ON metrics(name, ts);

CREATE TABLE IF NOT EXISTS logs (
    id INTEGER PRIMARY KEY AUTOINCREMENT,
    host_id INTEGER REFERENCES hosts(id) ON DELETE SET NULL,
    application_id INTEGER REFERENCES applications(id) ON DELETE SET NULL,
    source TEXT NOT NULL,
    line TEXT NOT NULL,
    ts INTEGER NOT NULL
);
CREATE INDEX IF NOT EXISTS idx_logs_source_ts ON logs(source, ts);

CREATE TABLE IF NOT EXISTS alert_rules (
    id INTEGER PRIMARY KEY AUTOINCREMENT,
    host_id INTEGER REFERENCES hosts(id) ON DELETE CASCADE,
    application_id INTEGER REFERENCES applications(id) ON DELETE CASCADE,
    name TEXT NOT NULL,
    metric_name TEXT NOT NULL,
    operator TEXT NOT NULL,
    threshold REAL NOT NULL,
    duration_secs INTEGER NOT NULL,
    enabled INTEGER NOT NULL DEFAULT 1
);

CREATE TABLE IF NOT EXISTS alert_events (
    id INTEGER PRIMARY KEY AUTOINCREMENT,
    rule_id INTEGER NOT NULL REFERENCES alert_rules(id) ON DELETE CASCADE,
    triggered_at INTEGER NOT NULL,
    resolved_at INTEGER,
    value REAL NOT NULL
);

CREATE TABLE IF NOT EXISTS channels (
    id INTEGER PRIMARY KEY AUTOINCREMENT,
    name TEXT NOT NULL UNIQUE,
    kind TEXT NOT NULL,
    endpoint TEXT NOT NULL,
    token_env TEXT,
    enabled INTEGER NOT NULL DEFAULT 1,
    created_at INTEGER NOT NULL,
    updated_at INTEGER NOT NULL
);

CREATE TABLE IF NOT EXISTS recipients (
    id INTEGER PRIMARY KEY AUTOINCREMENT,
    channel_id INTEGER NOT NULL REFERENCES channels(id) ON DELETE CASCADE,
    name TEXT NOT NULL,
    target TEXT NOT NULL,
    enabled INTEGER NOT NULL DEFAULT 1,
    created_at INTEGER NOT NULL,
    updated_at INTEGER NOT NULL,
    UNIQUE(channel_id, target)
);
"@, "failed to create tables"@),
        REBUILD_EVENTS@ == "
PRAGMA foreign_keys = OFF;
BEGIN IMMEDIATE;
DROP TABLE IF EXISTS alert_events_migrated;
CREATE TABLE alert_events_migrated (
    id INTEGER PRIMARY KEY AUTOINCREMENT,
    rule_id INTEGER NOT NULL REFERENCES alert_rules(id) ON DELETE CASCADE,
    triggered_at INTEGER NOT NULL,
    resolved_at INTEGER,
    value REAL NOT NULL
);
INSERT INTO alert_events_migrated (id, rule_id, triggered_at, resolved_at, value)
SELECT id, rule_id, triggered_at, resolved_at, value FROM alert_events;
DROP TABLE alert_events;
ALTER TABLE alert_events_migrated RENAME TO alert_events;
COMMIT;
PRAGMA foreign_keys = ON;
"@,
{
}

/// The first rules are added exactly when there is no rule yet, or when their count could not be
/// read.
pub proof fn law_rules_are_seeded_where_there_are_none(count: i64)
    ensures
        seeding_needed(None),
        seeding_needed(Some(count)) <==> count < 1,
{
}

/// One key that has the events go with their rule is enough, wherever it stands among the keys;
/// no other key is, and neither are none.
pub proof fn law_one_cascading_key_is_enough(
    before: Seq<ForeignKey>,
    key: ForeignKey,
    after: Seq<ForeignKey>,
)
    ensures
        key.table@ == "alert_rules"@ && key.column@ == "rule_id"@ && key.on_delete@ == "CASCADE"@
            ==> !rebuild_needed(before + seq![key] + after),
        rebuild_needed(Seq::<ForeignKey>::empty()),
        rebuild_needed(before) && (key.table@ != "alert_rules"@ || key.column@ != "rule_id"@
            || key.on_delete@ != "CASCADE"@) ==> rebuild_needed(before.push(key)),
{
    let keys = before + seq![key] + after;
    assert(keys[before.len() as int] == key);
    let longer = before.push(key);
    assert forall|i: int| rebuild_needed(before) && !cascading(key) && 0 <= i
        < longer.len() implies !cascading(#[trigger] longer[i]) by {
        if i < before.len() {
            assert(longer[i] == before[i]);
        }
    }
}

/// The columns that are asked for are those of the table.
pub proof fn law_columns_are_asked_for_by_table(table: Seq<char>)
    ensures
        "PRAGMA table_info("@.is_prefix_of(columns_sql(table)),
        (table + ")"@).is_suffix_of(columns_sql(table)),
        columns_sql(table).len() == "PRAGMA table_info("@.len() + table.len() + ")"@.len(),
{
    let sql = columns_sql(table);
    let head = "PRAGMA table_info("@;
    assert(sql.take(head.len() as int) =~= head);
    assert(sql.skip(head.len() as int) =~= table + ")"@);
}

} // verus!
