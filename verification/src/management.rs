//! The management of records: what a request to list, show, add, change or delete one asks of
//! the database, and how it is answered.
use crate::channel::{
    channel_verdict, stored_view, validate_channel_config, StoredChannel, StoredChannelView,
};
use crate::clock::clock_time;
use crate::defaults::{apply_defaults, with_defaults};
use crate::fields::{entries_of, field, fields, lookup, members_of, object_members, Entries};
use crate::json::{
    array, count, integer, integer_tree, item_views, lemma_member, no_members, object, object1,
    object2, put_member, text, under, Field, FieldView, Json, JsonNumber, JsonView,
};
use crate::record::{
    cell_views, column_names, insert_record, insert_statement, law_accepted_fields_can_be_bound,
    law_written_columns, ordered, row_json, row_tree, row_views, update_record, update_statement,
    Cell, CellView,
};
use crate::resource::{
    channel_resource, column_list, host_resource, law_each_resource_has_its_own_table,
    law_queries_read_every_column, law_required_and_stamped_fields_are_columns,
    law_the_names_of_resources, law_which_resources_bear_times, resource, resource_of,
    select_columns, Resource, ResourceView,
};
use crate::sql::{statement, value_views, SqlValue, SqlView, Statement, StatementView};
use crate::text::{optional_text, same_text};
use crate::validation::{field_verdict, validate};
use vstd::prelude::*;
use vstd::string::*;

verus! {

/// The answer to a request: an HTTP status and a body.
#[derive(Debug, PartialEq)]
pub struct ApiResponse {
    pub status: u16,
    pub body: Json,
}

/// The mathematical value of an [`ApiResponse`].
#[verifier::ext_equal]
pub struct ReplyView {
    pub status: u16,
    pub body: JsonView,
}

impl View for ApiResponse {
    type V = ReplyView;

    open spec fn view(&self) -> ReplyView {
        ReplyView { status: self.status, body: self.body@ }
    }
}

/// A statement to run on the table of a resource.
pub struct Task {
    pub resource: Resource,
    pub statement: Statement,
}

/// The mathematical value of a [`Task`].
#[verifier::ext_equal]
pub struct TaskView {
    pub resource: ResourceView,
    pub statement: StatementView,
}

impl View for Task {
    type V = TaskView;

    open spec fn view(&self) -> TaskView {
        TaskView { resource: self.resource@, statement: self.statement@ }
    }
}

/// A task, or the answer to a request that is refused.
pub open spec fn plan_view(plan: Result<Task, ApiResponse>) -> Result<TaskView, ReplyView> {
    match plan {
        Ok(task) => Ok(task@),
        Err(reply) => Err(reply@),
    }
}

/// How the database failed.
#[derive(Clone, Copy, Debug, PartialEq, Eq, Structural)]
pub enum DatabaseFailure {
    /// A constraint of the schema was violated.
    Constraint,
    Other,
}

/// The answer that reports an error.
pub open spec fn error_reply(status: u16, message: Seq<char>) -> ReplyView {
    ReplyView { status, body: JsonView::Object(seq![("error"@, JsonView::Text(message))]) }
}

/// The answer to a request for a resource that there is not.
pub open spec fn unknown_resource() -> ReplyView {
    error_reply(404, "unknown resource"@)
}

/// The answer that reports an error.
pub fn error(status: u16, message: &str) -> (reply: ApiResponse)
    ensures
        reply@ == error_reply(status, message@),
{
    ApiResponse { status, body: object1("error", text(message)) }
}

/// The answer to a failure of the database.
pub open spec fn failure_reply(failure: DatabaseFailure) -> ReplyView {
    match failure {
        DatabaseFailure::Constraint => error_reply(409, "record conflicts with existing data"@),
        DatabaseFailure::Other => error_reply(500, "database operation failed"@),
    }
}

/// The answer to a failure of the database.
pub fn database_error(failure: DatabaseFailure) -> (reply: ApiResponse)
    ensures
        reply@ == failure_reply(failure),
{
    match failure {
        DatabaseFailure::Constraint => error(409, "record conflicts with existing data"),
        DatabaseFailure::Other => error(500, "database operation failed"),
    }
}

/// The query of a list request.
pub struct ListQuery {
    pub limit: Option<usize>,
}

/// How many records are listed: as many as asked for, between one and a thousand, and two
/// hundred where nothing is asked.
pub open spec fn page_limit(limit: Option<usize>) -> int {
    match limit {
        None => 200,
        Some(n) => if n < 1 {
            1
        } else if n > 1000 {
            1000
        } else {
            n as int
        },
    }
}

/// The statement that lists the records of a resource, the latest first.
pub open spec fn list_statement(resource: ResourceView, limit: Option<usize>) -> StatementView {
    StatementView {
        sql: "SELECT "@ + column_list(resource) + " FROM "@ + resource.table + " ORDER BY "@ + (
        if resource.ordered_by_ts {
            "ts DESC"@
        } else {
            "id DESC"@
        }) + " LIMIT ?1"@,
        values: seq![SqlView::Integer(page_limit(limit) as i64)],
    }
}

/// The statement that reads one record.
pub open spec fn get_statement(resource: ResourceView, id: i64) -> StatementView {
    StatementView {
        sql: "SELECT "@ + column_list(resource) + " FROM "@ + resource.table + " WHERE id = ?1"@,
        values: seq![SqlView::Integer(id)],
    }
}

/// The statement that deletes one record.
pub open spec fn delete_statement(resource: ResourceView, id: i64) -> StatementView {
    StatementView {
        sql: "DELETE FROM "@ + resource.table + " WHERE id = ?1"@,
        values: seq![SqlView::Integer(id)],
    }
}

/// The list of one bound integer.
fn one_integer(n: i64) -> (values: Vec<SqlValue>)
    ensures
        value_views(values@) == seq![SqlView::Integer(n)],
{
    let mut values: Vec<SqlValue> = Vec::new();
    values.push(SqlValue::Integer(n));
    assert(value_views(values@) =~= seq![SqlView::Integer(n)]);
    values
}

/// What becomes of a request to list the records of a resource.
pub open spec fn list_plan(name: Seq<char>, limit: Option<usize>) -> Result<TaskView, ReplyView> {
    match resource_of(name) {
        None => Err(unknown_resource()),
        Some(resource) => Ok(TaskView { resource, statement: list_statement(resource, limit) }),
    }
}

/// Lists the records of a resource: the query to run.
pub fn list(name: &str, query: &ListQuery) -> (plan: Result<Task, ApiResponse>)
    ensures
        plan_view(plan) == list_plan(name@, query.limit),
{
    let resource = match resource(name) {
        Some(resource) => resource,
        None => {
            return Err(error(404, "unknown resource"));
        },
    };
    let limit: usize = match query.limit {
        None => 200,
        Some(n) => if n < 1 {
            1
        } else if n > 1000 {
            1000
        } else {
            n
        },
    };
    let mut sql = "SELECT ".to_owned();
    sql.append(select_columns(&resource).as_str());
    sql.append(" FROM ");
    sql.append(resource.table);
    sql.append(" ORDER BY ");
    if resource.ordered_by_ts {
        sql.append("ts DESC");
    } else {
        sql.append("id DESC");
    }
    sql.append(" LIMIT ?1");
    let statement = statement(sql.as_str(), one_integer(limit as i64));
    Ok(Task { resource, statement })
}

/// Every row has a tree that shows it.
pub open spec fn all_shown(rows: Seq<Seq<CellView>>, resource: ResourceView) -> bool {
    forall|i: int| 0 <= i < rows.len() ==> row_tree(#[trigger] rows[i], resource) is Some
}

/// The trees that show the rows.
pub open spec fn row_trees(rows: Seq<Seq<CellView>>, resource: ResourceView) -> Seq<JsonView> {
    rows.map_values(|row: Seq<CellView>| row_tree(row, resource)->0)
}

/// The outcome of a query for rows.
pub open spec fn rows_view(rows: Result<Vec<Vec<Cell>>, ()>) -> Option<Seq<Seq<CellView>>> {
    match rows {
        Ok(rows) => Some(row_views(rows@)),
        Err(_) => None,
    }
}

/// The answer to a list request, by the rows that the query gave; none where it failed.
pub open spec fn list_reply(resource: ResourceView, rows: Option<Seq<Seq<CellView>>>) -> ReplyView {
    if rows is Some && all_shown(rows->0, resource) {
        ReplyView {
            status: 200,
            body: JsonView::Object(
                seq![
                    ("resource"@, JsonView::Text(resource.name)),
                    ("count"@, JsonView::Number(JsonNumber::PosInt(rows->0.len() as u64))),
                    ("items"@, JsonView::Array(row_trees(rows->0, resource))),
                ],
            ),
        }
    } else {
        error_reply(500, "database query failed"@)
    }
}

/// The trees that show the rows; none where a row cannot be shown.
fn show_rows(rows: &Vec<Vec<Cell>>, resource: &Resource) -> (items: Option<Vec<Json>>)
    ensures
        match items {
            Some(items) => all_shown(row_views(rows@), resource@) && item_views(items@)
                == row_trees(row_views(rows@), resource@) && items@.len() == rows@.len(),
            None => !all_shown(row_views(rows@), resource@),
        },
{
    let ghost views = row_views(rows@);
    let ghost trees = row_trees(views, resource@);
    let mut items: Vec<Json> = Vec::new();
    let mut i: usize = 0;
    assert(item_views(items@) =~= trees.take(0));
    while i < rows.len()
        invariant
            i <= rows@.len(),
            items@.len() == i,
            views == row_views(rows@),
            trees == row_trees(views, resource@),
            item_views(items@) == trees.take(i as int),
            forall|j: int| 0 <= j < i ==> row_tree(#[trigger] views[j], resource@) is Some,
        decreases rows@.len() - i,
    {
        let ghost before = items@;
        assert(views[i as int] == cell_views(rows@[i as int]@));
        match row_json(&rows[i], resource) {
            Some(item) => {
                items.push(item);
                assert(item_views(items@) =~= item_views(before).push(item@));
                assert(trees.take(i + 1) =~= trees.take(i as int).push(trees[i as int]));
            },
            None => {
                return None;
            },
        }
        i = i + 1;
    }
    assert(trees.take(trees.len() as int) =~= trees);
    Some(items)
}

/// Answers a list request with what its query gave.
pub fn listed(resource: &Resource, rows: &Result<Vec<Vec<Cell>>, ()>) -> (reply: ApiResponse)
    ensures
        reply@ == list_reply(resource@, rows_view(*rows)),
{
    let rows: &Vec<Vec<Cell>> = match rows {
        Ok(rows) => rows,
        Err(_) => {
            return error(500, "database query failed");
        },
    };
    match show_rows(rows, resource) {
        Some(items) => {
            let mut members = no_members();
            put_member(&mut members, "resource", text(resource.name));
            put_member(&mut members, "count", count(items.len()));
            put_member(&mut members, "items", array(items));
            let body = object(members);
            assert(body@->Object_0 =~= list_reply(
                resource@,
                Some(row_views(rows@)),
            ).body->Object_0);
            ApiResponse { status: 200, body }
        },
        None => error(500, "database query failed"),
    }
}

/// What becomes of a request to show one record.
pub open spec fn get_plan(name: Seq<char>, id: i64) -> Result<TaskView, ReplyView> {
    match resource_of(name) {
        None => Err(unknown_resource()),
        Some(resource) => Ok(TaskView { resource, statement: get_statement(resource, id) }),
    }
}

/// Shows one record: the query to run.
pub fn get(name: &str, id: i64) -> (plan: Result<Task, ApiResponse>)
    ensures
        plan_view(plan) == get_plan(name@, id),
{
    let resource = match resource(name) {
        Some(resource) => resource,
        None => {
            return Err(error(404, "unknown resource"));
        },
    };
    let mut sql = "SELECT ".to_owned();
    sql.append(select_columns(&resource).as_str());
    sql.append(" FROM ");
    sql.append(resource.table);
    sql.append(" WHERE id = ?1");
    let statement = statement(sql.as_str(), one_integer(id));
    Ok(Task { resource, statement })
}

/// The outcome of a query for one row: none where there is no such record.
pub open spec fn row_view(row: Result<Option<Vec<Cell>>, ()>) -> Result<
    Option<Seq<CellView>>,
    (),
> {
    match row {
        Ok(Some(row)) => Ok(Some(cell_views(row@))),
        Ok(None) => Ok(None),
        Err(_) => Err(()),
    }
}

/// The answer to a request to show a record, by what its query gave.
pub open spec fn get_reply(resource: ResourceView, row: Result<Option<Seq<CellView>>, ()>) -> ReplyView {
    match row {
        Ok(None) => error_reply(404, "record not found"@),
        Ok(Some(row)) => match row_tree(row, resource) {
            Some(item) => ReplyView {
                status: 200,
                body: JsonView::Object(
                    seq![("resource"@, JsonView::Text(resource.name)), ("item"@, item)],
                ),
            },
            None => error_reply(500, "database query failed"@),
        },
        Err(_) => error_reply(500, "database query failed"@),
    }
}

/// Answers a request to show a record with what its query gave.
pub fn found(resource: &Resource, row: &Result<Option<Vec<Cell>>, ()>) -> (reply: ApiResponse)
    ensures
        reply@ == get_reply(resource@, row_view(*row)),
{
    match row {
        Ok(Some(row)) => match row_json(row, resource) {
            Some(item) => {
                ApiResponse {
                    status: 200,
                    body: object2("resource", text(resource.name), "item", item),
                }
            },
            None => error(500, "database query failed"),
        },
        Ok(None) => error(404, "record not found"),
        Err(_) => error(500, "database query failed"),
    }
}

/// What becomes of a request to add a record once the service has filled in its fields: the
/// statement to run, or the answer that refuses it.
pub open spec fn insert_plan(resource: ResourceView, entries: Entries) -> Result<
    TaskView,
    ReplyView,
> {
    if field_verdict(resource, entries, true) is Some {
        Err(error_reply(400, field_verdict(resource, entries, true)->0))
    } else if resource.name == "channels"@ && channel_verdict(entries, Ok(None)) is Some {
        Err(error_reply(400, channel_verdict(entries, Ok(None))->0))
    } else {
        match insert_statement(resource, entries) {
            Some(statement) => Ok(TaskView { resource, statement }),
            None => Err(error_reply(400, "field values must be scalar"@)),
        }
    }
}

/// What becomes of a request to add a record that is made at `now`.
pub open spec fn create_plan(name: Seq<char>, body: Option<Entries>, now: i64) -> Result<
    TaskView,
    ReplyView,
> {
    match (resource_of(name), body) {
        (None, _) => Err(unknown_resource()),
        (Some(_), None) => Err(error_reply(400, "request body must be an object"@)),
        (Some(resource), Some(entries)) => insert_plan(
            resource,
            with_defaults(resource, entries, true, now),
        ),
    }
}

/// Adds a record whose fields are complete: the statement to run.
pub fn insert(resource: Resource, request: &serde_json::Map<String, serde_json::Value>) -> (plan:
    Result<Task, ApiResponse>)
    ensures
        plan_view(plan) == insert_plan(resource@, entries_of(*request)),
{
    if let Err(message) = validate(&resource, request, true) {
        return Err(error(400, message));
    }
    if same_text(resource.name, "channels") {
        if let Err(message) = validate_channel_config(request, &Ok(None)) {
            return Err(error(400, message));
        }
    }
    let entries = fields(request);
    match insert_record(&resource, &entries) {
        Ok(statement) => Ok(Task { resource, statement }),
        Err(message) => Err(error(400, message)),
    }
}

/// Adds a record: the statement to run. The service fills in the current time.
pub fn create(name: &str, body: &serde_json::Value) -> (plan: Result<Task, ApiResponse>)
    ensures
        exists|now: i64|
            clock_time(now) && plan_view(plan) == #[trigger] create_plan(
                name@,
                members_of(*body),
                now,
            ),
{
    let resource = match resource(name) {
        Some(resource) => resource,
        None => {
            let plan: Result<Task, ApiResponse> = Err(error(404, "unknown resource"));
            assert(plan_view(plan) == create_plan(name@, members_of(*body), 0));
            return plan;
        },
    };
    let mut request = match object_body(body) {
        Ok(request) => request,
        Err(_) => {
            let plan: Result<Task, ApiResponse> = Err(
                error(400, "request body must be an object"),
            );
            assert(plan_view(plan) == create_plan(name@, members_of(*body), 0));
            return plan;
        },
    };
    let ghost given = entries_of(request);
    apply_defaults(&resource, &mut request, true);
    let ghost now = choose|now: i64|
        clock_time(now) && entries_of(request) == #[trigger] with_defaults(resource@, given, true, now);
    let plan = insert(resource, &request);
    assert(plan_view(plan) == create_plan(name@, members_of(*body), now));
    plan
}

/// The map of a request's body, where that is an object.
pub fn object_body(body: &serde_json::Value) -> (request: Result<
    serde_json::Map<String, serde_json::Value>,
    (),
>)
    ensures
        match request {
            Ok(request) => members_of(*body) == Some(entries_of(request)),
            Err(_) => members_of(*body) is None,
        },
{
    match object_members(body) {
        Some(request) => Ok(request),
        None => Err(()),
    }
}

/// What follows an addition: the record to show, by its id, or the answer to the failure.
pub open spec fn after_addition(result: Result<i64, DatabaseFailure>) -> Result<i64, ReplyView> {
    match result {
        Ok(id) => Ok(id),
        Err(failure) => Err(failure_reply(failure)),
    }
}

/// The view of an id to show or of an answer.
pub open spec fn shown_view(next: Result<i64, ApiResponse>) -> Result<i64, ReplyView> {
    match next {
        Ok(id) => Ok(id),
        Err(reply) => Err(reply@),
    }
}

/// Goes on from the addition of a record: shows the record that was added, by its id, or
/// answers the failure.
pub fn created(result: Result<i64, DatabaseFailure>) -> (next: Result<i64, ApiResponse>)
    ensures
        match result {
            Ok(id) => next matches Ok(shown) && shown == id,
            Err(failure) => next matches Err(reply) && reply@ == failure_reply(failure),
        },
        shown_view(next) == after_addition(result),
{
    match result {
        Ok(id) => Ok(id),
        Err(failure) => Err(database_error(failure)),
    }
}

/// A change of a record that is under way.
pub struct PendingUpdate {
    pub resource: Resource,
    pub id: i64,
    pub request: serde_json::Map<String, serde_json::Value>,
}

/// What a request to change a record needs next.
pub enum UpdateStep {
    /// Nothing: this is the answer.
    Reply(ApiResponse),
    /// The name of the host, for [`update_host`].
    ReadHost(PendingUpdate),
    /// What is stored of the channel, for [`update_channel`].
    ReadChannel(PendingUpdate),
    /// The run of a statement, for [`updated`].
    Run(Task),
}

/// The mathematical value of an [`UpdateStep`].
pub enum UpdateStepView {
    Reply(ReplyView),
    ReadHost(ResourceView, i64, Entries),
    ReadChannel(ResourceView, i64, Entries),
    Run(TaskView),
}

impl View for UpdateStep {
    type V = UpdateStepView;

    open spec fn view(&self) -> UpdateStepView {
        match self {
            UpdateStep::Reply(reply) => UpdateStepView::Reply(reply@),
            UpdateStep::ReadHost(pending) => UpdateStepView::ReadHost(
                pending.resource@,
                pending.id,
                entries_of(pending.request),
            ),
            UpdateStep::ReadChannel(pending) => UpdateStepView::ReadChannel(
                pending.resource@,
                pending.id,
                entries_of(pending.request),
            ),
            UpdateStep::Run(task) => UpdateStepView::Run(task@),
        }
    }
}

/// The request gives the host a name other than that of the local host.
pub open spec fn renames_host(resource: ResourceView, entries: Entries) -> bool {
    resource.name == "hosts"@ && lookup(entries, "name"@) is Some && lookup(entries, "name"@)
        != Some(FieldView::Text("local"@))
}

/// The write at the end of a change.
pub open spec fn write_step(resource: ResourceView, id: i64, entries: Entries) -> UpdateStepView {
    match update_statement(resource, entries, id) {
        Some(statement) => UpdateStepView::Run(TaskView { resource, statement }),
        None => UpdateStepView::Reply(error_reply(400, "field values must be scalar"@)),
    }
}

/// What a change needs once its fields are complete.
pub open spec fn complete_step(resource: ResourceView, id: i64, entries: Entries) -> UpdateStepView {
    if entries.len() == 0 {
        UpdateStepView::Reply(error_reply(400, "no fields to update"@))
    } else if field_verdict(resource, entries, false) is Some {
        UpdateStepView::Reply(error_reply(400, field_verdict(resource, entries, false)->0))
    } else if resource.name == "channels"@ {
        UpdateStepView::ReadChannel(resource, id, entries)
    } else {
        write_step(resource, id, entries)
    }
}

/// What a request to change a record needs first, if it is made at `now`.
pub open spec fn update_step(name: Seq<char>, id: i64, body: Option<Entries>, now: i64) -> UpdateStepView {
    match (resource_of(name), body) {
        (None, _) => UpdateStepView::Reply(unknown_resource()),
        (Some(_), None) => UpdateStepView::Reply(
            error_reply(400, "request body must be an object"@),
        ),
        (Some(resource), Some(entries)) => if renames_host(resource, entries) {
            UpdateStepView::ReadHost(resource, id, entries)
        } else {
            complete_step(resource, id, with_defaults(resource, entries, false, now))
        },
    }
}

/// What a change of a host needs once the host's name was read, if it goes on at `now`.
pub open spec fn host_step(
    resource: ResourceView,
    id: i64,
    entries: Entries,
    host: Result<Option<Seq<char>>, ()>,
    now: i64,
) -> UpdateStepView {
    match host {
        Err(_) => UpdateStepView::Reply(error_reply(500, "database query failed"@)),
        Ok(host) => if host == Some("local"@) {
            UpdateStepView::Reply(error_reply(409, "the local host cannot be renamed"@))
        } else {
            complete_step(resource, id, with_defaults(resource, entries, false, now))
        },
    }
}

/// What a change of a channel needs once the stored channel was read.
pub open spec fn channel_step(
    resource: ResourceView,
    id: i64,
    entries: Entries,
    stored: Result<Option<StoredChannelView>, ()>,
) -> UpdateStepView {
    if channel_verdict(entries, stored) is Some {
        UpdateStepView::Reply(error_reply(400, channel_verdict(entries, stored)->0))
    } else {
        write_step(resource, id, entries)
    }
}

fn write(resource: Resource, id: i64, request: &serde_json::Map<String, serde_json::Value>) -> (step:
    UpdateStep)
    ensures
        step@ == write_step(resource@, id, entries_of(*request)),
{
    let entries = fields(request);
    match update_record(&resource, &entries, id) {
        Ok(statement) => UpdateStep::Run(Task { resource, statement }),
        Err(message) => UpdateStep::Reply(error(400, message)),
    }
}

/// Changes a record whose fields are complete: what is needed next.
pub fn update_complete(pending: PendingUpdate) -> (step: UpdateStep)
    ensures
        step@ == complete_step(pending.resource@, pending.id, entries_of(pending.request)),
{
    let entries = fields(&pending.request);
    assert(entries@.len() == entries_of(pending.request).len());
    if entries.len() == 0 {
        return UpdateStep::Reply(error(400, "no fields to update"));
    }
    if let Err(message) = validate(&pending.resource, &pending.request, false) {
        return UpdateStep::Reply(error(400, message));
    }
    if same_text(pending.resource.name, "channels") {
        UpdateStep::ReadChannel(pending)
    } else {
        write(pending.resource, pending.id, &pending.request)
    }
}

/// Goes on with a change: the service fills in the current time.
fn update_now(pending: PendingUpdate) -> (step: UpdateStep)
    ensures
        exists|now: i64|
            clock_time(now) && step@ == complete_step(
                pending.resource@,
                pending.id,
                #[trigger] with_defaults(
                    pending.resource@,
                    entries_of(pending.request),
                    false,
                    now,
                ),
            ),
{
    let PendingUpdate { resource, id, mut request } = pending;
    apply_defaults(&resource, &mut request, false);
    update_complete(PendingUpdate { resource, id, request })
}

/// Changes a record: what is needed first. The service fills in the current time.
pub fn update(name: &str, id: i64, body: &serde_json::Value) -> (step: UpdateStep)
    ensures
        exists|now: i64|
            clock_time(now) && step@ == #[trigger] update_step(
                name@,
                id,
                members_of(*body),
                now,
            ),
{
    let resource = match resource(name) {
        Some(resource) => resource,
        None => {
            let step = UpdateStep::Reply(error(404, "unknown resource"));
            assert(step@ == update_step(name@, id, members_of(*body), 0));
            return step;
        },
    };
    let request = match object_body(body) {
        Ok(request) => request,
        Err(_) => {
            let step = UpdateStep::Reply(error(400, "request body must be an object"));
            assert(step@ == update_step(name@, id, members_of(*body), 0));
            return step;
        },
    };
    let ghost entries = entries_of(request);
    let renames = same_text(resource.name, "hosts") && match field(&request, "name") {
        Some(Field::Text(given)) => !same_text(given.as_str(), "local"),
        Some(_) => true,
        None => false,
    };
    assert(renames == renames_host(resource@, entries));
    let pending = PendingUpdate { resource, id, request };
    if renames {
        let step = UpdateStep::ReadHost(pending);
        assert(step@ == update_step(name@, id, members_of(*body), 0));
        step
    } else {
        let step = update_now(pending);
        let ghost now = choose|now: i64|
            clock_time(now) && step@ == complete_step(
                resource@,
                id,
                #[trigger] with_defaults(resource@, entries, false, now),
            );
        assert(step@ == update_step(name@, id, members_of(*body), now));
        step
    }
}

/// The query for the name of a host.
pub open spec fn host_statement(id: i64) -> StatementView {
    StatementView {
        sql: "SELECT name FROM hosts WHERE id = ?1"@,
        values: seq![SqlView::Integer(id)],
    }
}

/// The query for what is stored of a channel.
pub open spec fn channel_statement(id: i64) -> StatementView {
    StatementView {
        sql: "SELECT kind, endpoint, token_env FROM channels WHERE id = ?1"@,
        values: seq![SqlView::Integer(id)],
    }
}

/// The query for the name of a host.
pub fn host_query(id: i64) -> (query: Statement)
    ensures
        query@ == host_statement(id),
        query@ == (StatementView {
            sql: "SELECT name FROM hosts WHERE id = ?1"@,
            values: seq![SqlView::Integer(id)],
        }),
{
    statement("SELECT name FROM hosts WHERE id = ?1", one_integer(id))
}

/// The query for what is stored of a channel.
pub fn channel_query(id: i64) -> (query: Statement)
    ensures
        query@ == channel_statement(id),
        query@ == (StatementView {
            sql: "SELECT kind, endpoint, token_env FROM channels WHERE id = ?1"@,
            values: seq![SqlView::Integer(id)],
        }),
{
    statement("SELECT kind, endpoint, token_env FROM channels WHERE id = ?1", one_integer(id))
}

/// Whether a host is the local one, by its name.
pub fn is_local_host(host: &Option<String>) -> (local: bool)
    ensures
        local == (optional_text(*host) == Some("local"@)),
{
    match host {
        Some(name) => same_text(name.as_str(), "local"),
        None => false,
    }
}

/// The outcome of reading a host's name: none where there is no such record.
pub open spec fn host_view(host: Result<Option<String>, ()>) -> Result<Option<Seq<char>>, ()> {
    match host {
        Ok(host) => Ok(optional_text(host)),
        Err(_) => Err(()),
    }
}

/// Goes on with the change of a host once its name was read. The service fills in the
/// current time.
pub fn update_host(pending: PendingUpdate, host: &Result<Option<String>, ()>) -> (step: UpdateStep)
    ensures
        exists|now: i64|
            clock_time(now) && step@ == #[trigger] host_step(
                pending.resource@,
                pending.id,
                entries_of(pending.request),
                host_view(*host),
                now,
            ),
{
    let ghost resource = pending.resource@;
    let ghost id = pending.id;
    let ghost entries = entries_of(pending.request);
    match host {
        Err(_) => {
            let step = UpdateStep::Reply(error(500, "database query failed"));
            assert(step@ == host_step(resource, id, entries, host_view(*host), 0));
            step
        },
        Ok(name) => {
            if is_local_host(name) {
                let step = UpdateStep::Reply(error(409, "the local host cannot be renamed"));
                assert(step@ == host_step(resource, id, entries, host_view(*host), 0));
                step
            } else {
                let step = update_now(pending);
                let ghost now = choose|now: i64|
                    clock_time(now) && step@ == complete_step(
                        resource,
                        id,
                        #[trigger] with_defaults(resource, entries, false, now),
                    );
                assert(step@ == host_step(resource, id, entries, host_view(*host), now));
                step
            }
        },
    }
}

/// Goes on with the change of a channel once what is stored of it was read.
pub fn update_channel(pending: PendingUpdate, stored: &Result<Option<StoredChannel>, ()>) -> (step:
    UpdateStep)
    ensures
        step@ == channel_step(
            pending.resource@,
            pending.id,
            entries_of(pending.request),
            stored_view(*stored),
        ),
{
    if let Err(message) = validate_channel_config(&pending.request, stored) {
        return UpdateStep::Reply(error(400, message));
    }
    write(pending.resource, pending.id, &pending.request)
}

/// What follows a change, by the number of records that it changed: the record is shown, or this
/// is the answer.
pub open spec fn after_change(result: Result<usize, DatabaseFailure>) -> Result<(), ReplyView> {
    match result {
        Ok(changed) => if changed == 0 {
            Err(error_reply(404, "record not found"@))
        } else {
            Ok(())
        },
        Err(failure) => Err(failure_reply(failure)),
    }
}

/// Goes on from the change of a record, by the number of records that it changed: shows the
/// record, or answers that there is none or that the database failed.
pub fn updated(result: Result<usize, DatabaseFailure>) -> (next: Result<(), ApiResponse>)
    ensures
        match result {
            Ok(changed) => if changed == 0 {
                next matches Err(reply) && reply@ == error_reply(404, "record not found"@)
            } else {
                next is Ok
            },
            Err(failure) => next matches Err(reply) && reply@ == failure_reply(failure),
        },
        match next {
            Ok(_) => after_change(result) is Ok,
            Err(reply) => after_change(result) == Err::<(), ReplyView>(reply@),
        },
{
    match result {
        Ok(changed) => if changed == 0 {
            Err(error(404, "record not found"))
        } else {
            Ok(())
        },
        Err(failure) => Err(database_error(failure)),
    }
}

/// What a request to delete a record needs next.
pub enum DeleteStep {
    /// Nothing: this is the answer.
    Reply(ApiResponse),
    /// The name of the host, for [`delete_host`].
    ReadHost(Resource, i64),
    /// The run of a statement, for [`deleted`].
    Run(Task),
}

/// The mathematical value of a [`DeleteStep`].
pub enum DeleteStepView {
    Reply(ReplyView),
    ReadHost(ResourceView, i64),
    Run(TaskView),
}

impl View for DeleteStep {
    type V = DeleteStepView;

    open spec fn view(&self) -> DeleteStepView {
        match self {
            DeleteStep::Reply(reply) => DeleteStepView::Reply(reply@),
            DeleteStep::ReadHost(resource, id) => DeleteStepView::ReadHost(resource@, *id),
            DeleteStep::Run(task) => DeleteStepView::Run(task@),
        }
    }
}

/// The deletion at the end of a request.
pub open spec fn erase_step(resource: ResourceView, id: i64) -> DeleteStepView {
    DeleteStepView::Run(TaskView { resource, statement: delete_statement(resource, id) })
}

/// What a request to delete a record needs first.
pub open spec fn delete_step(name: Seq<char>, id: i64) -> DeleteStepView {
    match resource_of(name) {
        None => DeleteStepView::Reply(unknown_resource()),
        Some(resource) => if resource.name == "hosts"@ {
            DeleteStepView::ReadHost(resource, id)
        } else {
            erase_step(resource, id)
        },
    }
}

/// What the deletion of a host needs once the host's name was read.
pub open spec fn delete_host_step(
    resource: ResourceView,
    id: i64,
    host: Result<Option<Seq<char>>, ()>,
) -> DeleteStepView {
    match host {
        Err(_) => DeleteStepView::Reply(error_reply(500, "database query failed"@)),
        Ok(host) => if host == Some("local"@) {
            DeleteStepView::Reply(error_reply(409, "the local host cannot be deleted"@))
        } else {
            erase_step(resource, id)
        },
    }
}

fn erase(resource: Resource, id: i64) -> (step: DeleteStep)
    ensures
        step@ == erase_step(resource@, id),
{
    let mut sql = "DELETE FROM ".to_owned();
    sql.append(resource.table);
    sql.append(" WHERE id = ?1");
    let statement = statement(sql.as_str(), one_integer(id));
    DeleteStep::Run(Task { resource, statement })
}

/// Deletes a record: what is needed first.
pub fn delete(name: &str, id: i64) -> (step: DeleteStep)
    ensures
        step@ == delete_step(name@, id),
{
    match resource(name) {
        Some(resource) => if same_text(resource.name, "hosts") {
            DeleteStep::ReadHost(resource, id)
        } else {
            erase(resource, id)
        },
        None => DeleteStep::Reply(error(404, "unknown resource")),
    }
}

/// Goes on with the deletion of a host once its name was read.
pub fn delete_host(resource: Resource, id: i64, host: &Result<Option<String>, ()>) -> (step:
    DeleteStep)
    ensures
        step@ == delete_host_step(resource@, id, host_view(*host)),
{
    match host {
        Err(_) => DeleteStep::Reply(error(500, "database query failed")),
        Ok(name) => if is_local_host(name) {
            DeleteStep::Reply(error(409, "the local host cannot be deleted"))
        } else {
            erase(resource, id)
        },
    }
}

/// The answer to a deletion, by the number of records that it removed.
pub open spec fn delete_reply(
    resource: ResourceView,
    id: i64,
    result: Result<usize, DatabaseFailure>,
) -> ReplyView {
    match result {
        Ok(removed) => if removed == 0 {
            error_reply(404, "record not found"@)
        } else {
            ReplyView {
                status: 200,
                body: JsonView::Object(
                    seq![
                        ("deleted"@, integer_tree(id)),
                        ("resource"@, JsonView::Text(resource.name)),
                    ],
                ),
            }
        },
        Err(failure) => failure_reply(failure),
    }
}

/// Answers a deletion.
pub fn deleted(resource: &Resource, id: i64, result: Result<usize, DatabaseFailure>) -> (reply:
    ApiResponse)
    ensures
        reply@ == delete_reply(resource@, id, result),
{
    match result {
        Ok(removed) => if removed == 0 {
            error(404, "record not found")
        } else {
            ApiResponse {
                status: 200,
                body: object2("deleted", integer(id), "resource", text(resource.name)),
            }
        },
        Err(failure) => database_error(failure),
    }
}

/// The answer to the test of a channel.
pub open spec fn test_reply(id: i64, result: Result<usize, Seq<char>>) -> ReplyView {
    match result {
        Ok(sent) => ReplyView {
            status: 200,
            body: JsonView::Object(
                seq![
                    ("channel_id"@, integer_tree(id)),
                    ("sent"@, JsonView::Number(JsonNumber::PosInt(sent as u64))),
                ],
            ),
        },
        Err(message) => error_reply(502, message),
    }
}

/// Answers the test of a channel, by how many recipients were reached or why it failed.
pub fn test_channel(id: i64, result: &Result<usize, String>) -> (reply: ApiResponse)
    ensures
        reply@ == test_reply(
            id,
            match *result {
                Ok(sent) => Ok(sent),
                Err(message) => Err(message@),
            },
        ),
{
    match result {
        Ok(sent) => ApiResponse {
            status: 200,
            body: object2("channel_id", integer(id), "sent", count(*sent)),
        },
        Err(message) => error(502, message.as_str()),
    }
}

/// Every resource can be listed, shown, added to, changed and deleted from: the five
/// operations know the same resources, and any other name is answered by all of them alike.
pub proof fn law_operations_know_the_same_resources(
    name: Seq<char>,
    limit: Option<usize>,
    id: i64,
    body: Option<Entries>,
    now: i64,
)
    ensures
        list_plan(name, limit) is Ok <==> resource_of(name) is Some,
        get_plan(name, id) is Ok <==> resource_of(name) is Some,
        resource_of(name) is None ==> {
            &&& list_plan(name, limit) == Err::<TaskView, ReplyView>(unknown_resource())
            &&& get_plan(name, id) == Err::<TaskView, ReplyView>(unknown_resource())
            &&& create_plan(name, body, now) == Err::<TaskView, ReplyView>(unknown_resource())
            &&& update_step(name, id, body, now) == UpdateStepView::Reply(unknown_resource())
            &&& delete_step(name, id) == DeleteStepView::Reply(unknown_resource())
        },
        resource_of(name) is Some ==> {
            &&& create_plan(name, body, now) != Err::<TaskView, ReplyView>(unknown_resource())
            &&& update_step(name, id, body, now) != UpdateStepView::Reply(unknown_resource())
            &&& !(delete_step(name, id) is Reply)
        },
{
    if resource_of(name) is Some {
        assert(create_plan(name, body, now) is Err ==> create_plan(name, body, now)->Err_0.status
            == 400);
        assert(update_step(name, id, body, now) matches UpdateStepView::Reply(reply)
            ==> reply.status == 400);
    }
}

/// A list never shows more than a thousand records, and always asks for one at least.
pub proof fn law_page_limit_is_bounded(limit: Option<usize>)
    ensures
        1 <= page_limit(limit) <= 1000,
        limit is Some && 1 <= limit->0 <= 1000 ==> page_limit(limit) == limit->0,
{
}

/// A request to add a record is carried out exactly when the rules accept it: nothing else
/// stands in its way.
pub proof fn law_accepted_records_are_added(resource: ResourceView, entries: Entries)
    ensures
        insert_plan(resource, entries) is Ok <==> field_verdict(resource, entries, true) is None
            && (resource.name == "channels"@ ==> channel_verdict(entries, Ok(None)) is None),
        insert_plan(resource, entries) is Ok ==> insert_plan(resource, entries)->Ok_0.statement
            == insert_statement(resource, entries)->0,
        insert_plan(resource, entries) is Err ==> insert_plan(resource, entries)->Err_0.status
            == 400,
{
    if field_verdict(resource, entries, true) is None {
        law_accepted_fields_can_be_bound(resource, entries, true, 0);
    }
}

/// A record that is added has every required field: its statement writes that column, and
/// not with null.
pub proof fn law_added_records_are_complete(name: Seq<char>, entries: Entries, now: i64, i: int)
    requires
        resource_of(name) is Some,
        create_plan(name, Some(entries), now) is Ok,
        0 <= i < resource_of(name)->0.required.len(),
    ensures
        ({
            let resource = resource_of(name)->0;
            let given = with_defaults(resource, entries, true, now);
            &&& column_names(ordered(resource.fields, given)).contains(resource.required[i])
            &&& lookup(given, resource.required[i]) is Some
            &&& lookup(given, resource.required[i]) != Some(FieldView::Null)
        }),
{
    let resource = resource_of(name)->0;
    let given = with_defaults(resource, entries, true, now);
    let field = resource.required[i];
    law_required_and_stamped_fields_are_columns(name);
    law_written_columns(resource.fields, given);
    assert(lookup(given, field) is Some && lookup(given, field) != Some(FieldView::Null));
    let present = |name: Seq<char>| lookup(given, name) is Some;
    let at = choose|at: int| 0 <= at < resource.fields.len() && resource.fields[at] == field;
    assert(present(resource.fields[at]));
    assert(resource.fields.filter(present).contains(resource.fields[at]));
}

/// The local host is neither renamed nor deleted. A host is deleted only once its name was
/// read and is not that of the local host; it is given another name only then, too.
pub proof fn law_local_host_is_kept(
    id: i64,
    entries: Entries,
    host: Result<Option<Seq<char>>, ()>,
    now: i64,
)
    ensures
        delete_step("hosts"@, id) == DeleteStepView::ReadHost(host_resource(), id),
        delete_host_step(host_resource(), id, host) is Run <==> host is Ok && host->Ok_0 != Some(
            "local"@,
        ),
        delete_host_step(host_resource(), id, Ok(Some("local"@))) == DeleteStepView::Reply(
            error_reply(409, "the local host cannot be deleted"@),
        ),
        renames_host(host_resource(), entries) ==> update_step("hosts"@, id, Some(entries), now)
            == UpdateStepView::ReadHost(host_resource(), id, entries),
        host_step(host_resource(), id, entries, host, now) is Run ==> host is Ok && host->Ok_0
            != Some("local"@),
        host_step(host_resource(), id, entries, Ok(Some("local"@)), now) == UpdateStepView::Reply(
            error_reply(409, "the local host cannot be renamed"@),
        ),
{
}

/// A channel is changed only once what is stored of it was read, and only to what the rules
/// on channels accept of both together.
pub proof fn law_channels_stay_within_the_rules(
    id: i64,
    entries: Entries,
    stored: Result<Option<StoredChannelView>, ()>,
    now: i64,
)
    ensures
        !(update_step("channels"@, id, Some(entries), now) is Run),
        channel_step(channel_resource(), id, entries, stored) is Run ==> channel_verdict(
            entries,
            stored,
        ) is None && stored is Ok,
        create_plan("channels"@, Some(entries), now) is Ok ==> channel_verdict(
            with_defaults(channel_resource(), entries, true, now),
            Ok(None),
        ) is None,
{
    lemma_channel_names();
}

/// The name of the channels is that of no other resource.
proof fn lemma_channel_names()
    ensures
        resource_of("channels"@) == Some(channel_resource()),
{
    reveal_strlit("channels");
    reveal_strlit("hosts");
    reveal_strlit("applications");
    reveal_strlit("metrics");
    reveal_strlit("logs");
    reveal_strlit("alerts");
    reveal_strlit("recipients");
    assert("channels"@.len() == 8);
    assert("hosts"@.len() == 5);
    assert("applications"@.len() == 12);
    assert("metrics"@.len() == 7);
    assert("logs"@.len() == 4);
    assert("alerts"@.len() == 6);
    assert("recipients"@.len() == 10);
}

/// Every statement on a resource is on the table of its records, which bears the resource's name;
/// that of the alerts is the table of their rules. A list asks for the latest first, by the time
/// of metrics and logs and by the id of all others.
pub proof fn law_statements_are_on_the_table_of_the_resource(
    name: Seq<char>,
    limit: Option<usize>,
    id: i64,
    entries: Entries,
)
    requires
        resource_of(name) is Some,
    ensures
        ({
            let table = if name == "alerts"@ {
                "alert_rules"@
            } else {
                name
            };
            let order = if name == "metrics"@ || name == "logs"@ {
                "ts DESC"@
            } else {
                "id DESC"@
            };
            let resource = resource_of(name)->0;
            let list = list_plan(name, limit)->Ok_0.statement;
            let get = get_plan(name, id)->Ok_0.statement;
            let erased = erase_step(resource, id)->Run_0.statement;
            let added = insert_statement(resource, entries);
            let changed = update_statement(resource, entries, id);
            &&& ("SELECT "@ + "id, "@).is_prefix_of(list.sql)
            &&& (" FROM "@ + table + " ORDER BY "@ + order + " LIMIT ?1"@).is_suffix_of(list.sql)
            &&& list.values == seq![SqlView::Integer(page_limit(limit) as i64)]
            &&& ("SELECT "@ + "id, "@).is_prefix_of(get.sql)
            &&& (" FROM "@ + table + " WHERE id = ?1"@).is_suffix_of(get.sql)
            &&& get.values == seq![SqlView::Integer(id)]
            &&& erased.sql == "DELETE FROM "@ + table + " WHERE id = ?1"@
            &&& erased.values == seq![SqlView::Integer(id)]
            &&& added is Some ==> ("INSERT INTO "@ + table + " ("@).is_prefix_of(added->0.sql)
            &&& changed is Some ==> ("UPDATE "@ + table + " SET "@).is_prefix_of(changed->0.sql)
            &&& delete_step(name, id) matches DeleteStepView::Run(task) ==> task.statement == erased
            &&& name != "hosts"@ ==> delete_step(name, id) is Run
        }),
{
    let resource = resource_of(name)->0;
    law_the_names_of_resources(name);
    law_each_resource_has_its_own_table(name, name);
    law_which_resources_bear_times(name);
    law_queries_read_every_column(resource, 0);
    let table = resource.table;
    let order = if resource.ordered_by_ts {
        "ts DESC"@
    } else {
        "id DESC"@
    };
    let columns = column_list(resource);
    let list = list_statement(resource, limit).sql;
    let get = get_statement(resource, id).sql;
    let head = "SELECT "@ + "id, "@;
    let tail = " FROM "@ + table + " ORDER BY "@ + order + " LIMIT ?1"@;
    assert(list =~= "SELECT "@ + columns + tail);
    assert(list.skip(list.len() - tail.len()) =~= tail);
    assert(columns =~= "id, "@ + columns.skip("id, "@.len() as int));
    assert(list.take(head.len() as int) =~= head);
    let end = " FROM "@ + table + " WHERE id = ?1"@;
    assert(get =~= "SELECT "@ + columns + end);
    assert(get.skip(get.len() - end.len()) =~= end);
    assert(get.take(head.len() as int) =~= head);
    if insert_statement(resource, entries) is Some {
        let sql = insert_statement(resource, entries)->0.sql;
        let start = "INSERT INTO "@ + table + " ("@;
        assert(sql.take(start.len() as int) =~= start);
    }
    if update_statement(resource, entries, id) is Some {
        let sql = update_statement(resource, entries, id)->0.sql;
        let start = "UPDATE "@ + table + " SET "@;
        assert(sql.take(start.len() as int) =~= start);
    }
}

/// Two hundred records are listed where nothing is asked, one where fewer are asked for, a
/// thousand where more are, and else as many as asked for.
pub proof fn law_how_many_are_listed(limit: Option<usize>)
    ensures
        limit is None ==> page_limit(limit) == 200,
        limit is Some ==> page_limit(limit) == if limit->0 == 0 {
            1
        } else if limit->0 >= 1000 {
            1000
        } else {
            limit->0 as int
        },
{
}

/// An error is answered with its status, and with its message under `error` and nothing else.
pub proof fn law_errors_are_answered_by_name(status: u16, message: Seq<char>)
    ensures
        error_reply(status, message).status == status,
        under(error_reply(status, message).body, "error"@) == Some(JsonView::Text(message)),
        error_reply(status, message).body->Object_0.len() == 1,
        failure_reply(DatabaseFailure::Constraint) == error_reply(
            409,
            "record conflicts with existing data"@,
        ),
        failure_reply(DatabaseFailure::Other) == error_reply(500, "database operation failed"@),
        unknown_resource() == error_reply(404, "unknown resource"@),
{
    lemma_member(error_reply(status, message).body->Object_0, 0);
}

/// A list is answered with the name of the resource, with every row in its order, and with their
/// number. A query that failed, or a row with too few columns, is a failure.
pub proof fn law_lists_show_every_row(
    resource: ResourceView,
    rows: Seq<Seq<CellView>>,
    i: int,
)
    ensures
        list_reply(resource, None) == error_reply(500, "database query failed"@),
        0 <= i < rows.len() && rows[i].len() <= resource.fields.len() ==> list_reply(
            resource,
            Some(rows),
        ) == error_reply(500, "database query failed"@),
        (forall|j: int| 0 <= j < rows.len() ==> (#[trigger] rows[j]).len() > resource.fields.len())
            ==> {
            let reply = list_reply(resource, Some(rows));
            let items = under(reply.body, "items"@);
            &&& reply.status == 200
            &&& under(reply.body, "resource"@) == Some(JsonView::Text(resource.name))
            &&& under(reply.body, "count"@) == Some(
                JsonView::Number(JsonNumber::PosInt(rows.len() as u64)),
            )
            &&& items is Some && items->0 is Array
            &&& items->0->Array_0.len() == rows.len()
            &&& 0 <= i < rows.len() ==> Some(items->0->Array_0[i]) == row_tree(rows[i], resource)
        },
{
    if 0 <= i < rows.len() && rows[i].len() <= resource.fields.len() {
        assert(row_tree(rows[i], resource) is None);
    }
    if forall|j: int| 0 <= j < rows.len() ==> (#[trigger] rows[j]).len() > resource.fields.len() {
        assert(all_shown(rows, resource));
    reveal_strlit("resource");
    reveal_strlit("count");
    reveal_strlit("items");
    assert("resource"@.len() == 8);
    assert("count"@.len() == 5);
    assert("items"@.len() == 5);
    assert("count"@[0] != "items"@[0]);
        let members = list_reply(resource, Some(rows)).body->Object_0;
        assert(members[0].0 == "resource"@ && members[1].0 == "count"@ && members[2].0
            == "items"@);
        lemma_member(members, 0);
        lemma_member(members, 1);
        lemma_member(members, 2);
    }
}

/// A record that was found is shown with the name of its resource; one that was not is answered
/// as not found, and a query that failed as a failure.
pub proof fn law_found_records_are_shown(resource: ResourceView, row: Seq<CellView>)
    ensures
        get_reply(resource, Ok(None)) == error_reply(404, "record not found"@),
        get_reply(resource, Err(())) == error_reply(500, "database query failed"@),
        row.len() <= resource.fields.len() ==> get_reply(resource, Ok(Some(row))) == error_reply(
            500,
            "database query failed"@,
        ),
        row.len() > resource.fields.len() ==> {
            let reply = get_reply(resource, Ok(Some(row)));
            &&& reply.status == 200
            &&& under(reply.body, "resource"@) == Some(JsonView::Text(resource.name))
            &&& under(reply.body, "item"@) == row_tree(row, resource)
        },
{
    if row.len() > resource.fields.len() {
    reveal_strlit("resource");
    reveal_strlit("item");
    assert("resource"@.len() == 8);
    assert("item"@.len() == 4);
        let members = get_reply(resource, Ok(Some(row))).body->Object_0;
        assert(members[0].0 == "resource"@ && members[1].0 == "item"@);
        lemma_member(members, 0);
        lemma_member(members, 1);
    }
}

/// A deletion is answered with the id and the name of the resource where a record was removed, as
/// not found where none was, and as the failure of the database where that failed.
pub proof fn law_deletions_are_answered_by_what_was_removed(
    resource: ResourceView,
    id: i64,
    removed: usize,
    failure: DatabaseFailure,
)
    ensures
        delete_reply(resource, id, Ok(0)) == error_reply(404, "record not found"@),
        delete_reply(resource, id, Err(failure)) == failure_reply(failure),
        removed > 0 ==> {
            let reply = delete_reply(resource, id, Ok(removed));
            &&& reply.status == 200
            &&& under(reply.body, "deleted"@) == Some(integer_tree(id))
            &&& under(reply.body, "resource"@) == Some(JsonView::Text(resource.name))
        },
{
    if removed > 0 {
    reveal_strlit("deleted");
    reveal_strlit("resource");
    assert("deleted"@.len() == 7);
    assert("resource"@.len() == 8);
        let members = delete_reply(resource, id, Ok(removed)).body->Object_0;
        assert(members[0].0 == "deleted"@ && members[1].0 == "resource"@);
        lemma_member(members, 0);
        lemma_member(members, 1);
    }
}

/// A channel test that succeeded is answered with the channel and the number sent, and one that
/// failed as a bad gateway with the message.
pub proof fn law_channel_tests_are_answered_by_what_was_sent(
    id: i64,
    sent: usize,
    message: Seq<char>,
)
    ensures
        test_reply(id, Ok(sent)).status == 200,
        under(test_reply(id, Ok(sent)).body, "channel_id"@) == Some(integer_tree(id)),
        under(test_reply(id, Ok(sent)).body, "sent"@) == Some(
            JsonView::Number(JsonNumber::PosInt(sent as u64)),
        ),
        test_reply(id, Err(message)) == error_reply(502, message),
{
    reveal_strlit("channel_id");
    reveal_strlit("sent");
    assert("channel_id"@.len() == 10);
    assert("sent"@.len() == 4);
    let members = test_reply(id, Ok(sent)).body->Object_0;
    assert(members[0].0 == "channel_id"@ && members[1].0 == "sent"@);
    lemma_member(members, 0);
    lemma_member(members, 1);
}

/// A request to add a record is answered by the first rule that it breaks, those on its fields
/// before those on channels; where it breaks none, it is written with the fields that the service
/// fills in, on its own resource. A body that is no object is refused.
pub proof fn law_additions_follow_the_verdicts(
    name: Seq<char>,
    entries: Entries,
    now: i64,
    message: Seq<char>,
)
    requires
        resource_of(name) is Some,
    ensures
        create_plan(name, None, now) == Err::<TaskView, ReplyView>(
            error_reply(400, "request body must be an object"@),
        ),
        ({
            let resource = resource_of(name)->0;
            let given = with_defaults(resource, entries, true, now);
            let plan = create_plan(name, Some(entries), now);
            let fields = field_verdict(resource, given, true);
            let channel = channel_verdict(given, Ok(None));
            &&& fields == Some(message) ==> plan == Err::<TaskView, ReplyView>(
                error_reply(400, message),
            )
            &&& fields is None && name == "channels"@ && channel == Some(message) ==> plan == Err::<
                TaskView,
                ReplyView,
            >(error_reply(400, message))
            &&& fields is None && (name == "channels"@ ==> channel is None) ==> plan is Ok
                && plan->Ok_0.resource == resource && Some(plan->Ok_0.statement)
                == insert_statement(resource, given)
        }),
{
    let resource = resource_of(name)->0;
    let given = with_defaults(resource, entries, true, now);
    law_the_names_of_resources(name);
    if field_verdict(resource, given, true) is None {
        law_accepted_fields_can_be_bound(resource, given, true, 0);
    }
}

/// A change of a record is answered by the first rule that it breaks; where it breaks none, a
/// channel is read first, and any other record is written, on its own resource and by its own id.
pub proof fn law_changes_follow_the_verdicts(
    resource: ResourceView,
    id: i64,
    entries: Entries,
    stored: Result<Option<StoredChannelView>, ()>,
    message: Seq<char>,
)
    ensures
        ({
            let step = complete_step(resource, id, entries);
            let fields = field_verdict(resource, entries, false);
            &&& entries.len() == 0 ==> step == UpdateStepView::Reply(
                error_reply(400, "no fields to update"@),
            )
            &&& entries.len() > 0 && fields == Some(message) ==> step == UpdateStepView::Reply(
                error_reply(400, message),
            )
            &&& entries.len() > 0 && fields is None && resource.name == "channels"@ ==> step
                == UpdateStepView::ReadChannel(resource, id, entries)
            &&& entries.len() > 0 && fields is None && resource.name != "channels"@ ==> {
                &&& step is Run
                &&& step->Run_0.resource == resource
                &&& Some(step->Run_0.statement) == update_statement(resource, entries, id)
            }
        }),
        ({
            let step = channel_step(resource, id, entries, stored);
            let channel = channel_verdict(entries, stored);
            &&& channel == Some(message) ==> step == UpdateStepView::Reply(
                error_reply(400, message),
            )
            &&& channel is None && field_verdict(resource, entries, false) is None ==> {
                &&& step is Run
                &&& step->Run_0.resource == resource
                &&& Some(step->Run_0.statement) == update_statement(resource, entries, id)
            }
        }),
{
    if field_verdict(resource, entries, false) is None {
        law_accepted_fields_can_be_bound(resource, entries, false, id);
    }
}

/// The name of a host is read before a change exactly when the change gives it a name, and one
/// other than `local`. Any other change goes on with the time of the change filled in, and so
/// does that of a host that is not the local one.
pub proof fn law_hosts_are_read_before_they_are_renamed(
    name: Seq<char>,
    id: i64,
    entries: Entries,
    host: Option<Seq<char>>,
    now: i64,
)
    requires
        resource_of(name) is Some,
    ensures
        ({
            let resource = resource_of(name)->0;
            let step = update_step(name, id, Some(entries), now);
            let given = lookup(entries, "name"@);
            let renamed = name == "hosts"@ && given is Some && given != Some(
                FieldView::Text("local"@),
            );
            let filled = complete_step(resource, id, with_defaults(resource, entries, false, now));
            &&& step is ReadHost <==> renamed
            &&& renamed ==> step == UpdateStepView::ReadHost(resource, id, entries)
            &&& !renamed ==> step == filled
            &&& host != Some("local"@) ==> host_step(resource, id, entries, Ok(host), now) == filled
            &&& host_step(resource, id, entries, Ok(Some("local"@)), now) == UpdateStepView::Reply(
                error_reply(409, "the local host cannot be renamed"@),
            )
            &&& host_step(resource, id, entries, Err(()), now) == UpdateStepView::Reply(
                error_reply(500, "database query failed"@),
            )
        }),
        update_step(name, id, None, now) == UpdateStepView::Reply(
            error_reply(400, "request body must be an object"@),
        ),
{
    law_the_names_of_resources(name);
}

/// A host is deleted, by its own id, exactly when its name could be read and is not `local`.
pub proof fn law_hosts_are_read_before_they_are_deleted(
    resource: ResourceView,
    id: i64,
    host: Option<Seq<char>>,
)
    ensures
        host != Some("local"@) ==> delete_host_step(resource, id, Ok(host)) == erase_step(
            resource,
            id,
        ),
        delete_host_step(resource, id, Ok(Some("local"@))) == DeleteStepView::Reply(
            error_reply(409, "the local host cannot be deleted"@),
        ),
        delete_host_step(resource, id, Err(())) == DeleteStepView::Reply(
            error_reply(500, "database query failed"@),
        ),
        erase_step(resource, id) is Run,
        erase_step(resource, id)->Run_0.resource == resource,
{
}

/// A record that was added is shown by its own id. One that was changed is shown; where nothing
/// was changed, there is no such record. A failure of the database is answered as such.
pub proof fn law_written_records_are_shown(id: i64, changed: usize, failure: DatabaseFailure)
    ensures
        after_addition(Ok(id)) == Ok::<i64, ReplyView>(id),
        after_addition(Err(failure)) == Err::<i64, ReplyView>(failure_reply(failure)),
        after_change(Ok(changed)) is Ok <==> changed >= 1,
        after_change(Ok(0)) == Err::<(), ReplyView>(error_reply(404, "record not found"@)),
        after_change(Err(failure)) == Err::<(), ReplyView>(failure_reply(failure)),
{
}

/// What is read before a change is read from the table of the record, by its own id: the name of
/// a host, and the kind, the endpoint and the token of a channel.
pub proof fn law_records_are_read_by_their_id(id: i64)
    ensures
        host_statement(id).values.len() == 1 && channel_statement(id).values.len() == 1,
        host_statement(id).values[0] == SqlView::Integer(id),
        channel_statement(id).values[0] == SqlView::Integer(id),
        ("SELECT name"@ + " FROM hosts WHERE id = ?1"@) == host_statement(id).sql,
        ("SELECT kind, endpoint, token_env"@ + " FROM channels WHERE id = ?1"@)
            == channel_statement(id).sql,
{
    reveal_strlit("SELECT name");
    reveal_strlit(" FROM hosts WHERE id = ?1");
    reveal_strlit("SELECT name FROM hosts WHERE id = ?1");
    reveal_strlit("SELECT kind, endpoint, token_env");
    reveal_strlit(" FROM channels WHERE id = ?1");
    reveal_strlit("SELECT kind, endpoint, token_env FROM channels WHERE id = ?1");
    assert("SELECT name"@ + " FROM hosts WHERE id = ?1"@ =~= host_statement(id).sql);
    assert("SELECT kind, endpoint, token_env"@ + " FROM channels WHERE id = ?1"@
        =~= channel_statement(id).sql);
}

} // verus!
