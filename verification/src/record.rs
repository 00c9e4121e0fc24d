//! Records: the statements that write them, and the trees that show them.
use crate::fields::{entry_views, find, lemma_lookup_entry, lookup, Entries};
use crate::json::{
    double, double_tree, integer, integer_tree, member_views, no_members, object, put_member,
    Double, Field, FieldView, Json, JsonNumber, JsonView,
};
use crate::resource::{Resource, ResourceView};
use crate::sql::{statement, value_views, SqlValue, SqlView, Statement, StatementView};
use crate::text::{
    decimal, decimal_text, join, joined, law_numerals_stand_for_their_number, literal_views,
    numeral_value, text_views,
};
use crate::validation::field_verdict;
use vstd::prelude::*;
use vstd::string::*;
use vstd::utf8::{
    decode_utf8, decode_utf8_encode_utf8, encode_utf8, encode_utf8_decode_utf8,
    encode_utf8_valid_utf8, valid_utf8,
};

verus! {

/// What a column of a row holds.
pub enum Cell {
    Null,
    Integer(i64),
    Real(Double),
    /// A text, by its bytes.
    Text(Vec<u8>),
    Blob,
}

/// The mathematical value of a [`Cell`].
pub enum CellView {
    Null,
    Integer(i64),
    Real(Double),
    Text(Seq<u8>),
    Blob,
}

impl View for Cell {
    type V = CellView;

    open spec fn view(&self) -> CellView {
        match self {
            Cell::Null => CellView::Null,
            Cell::Integer(n) => CellView::Integer(*n),
            Cell::Real(d) => CellView::Real(*d),
            Cell::Text(bytes) => CellView::Text(bytes@),
            Cell::Blob => CellView::Blob,
        }
    }
}

/// The views of the columns of a row.
pub open spec fn cell_views(row: Seq<Cell>) -> Seq<CellView> {
    row.map_values(|cell: Cell| cell@)
}

/// The views of a list of rows.
pub open spec fn row_views(rows: Seq<Vec<Cell>>) -> Seq<Seq<CellView>> {
    rows.map_values(|row: Vec<Cell>| cell_views(row@))
}

/// The text that `String::from_utf8_lossy` makes of bytes that are not valid UTF-8.
pub uninterp spec fn lossy_text(bytes: Seq<u8>) -> Seq<char>;

/// `String::from_utf8_lossy`: the text that the bytes encode where they are valid UTF-8, and
/// else one that depends on the bytes alone.
#[verifier::external_body]
fn text_of_bytes(bytes: &Vec<u8>) -> (text: String)
    ensures
        text@ == if valid_utf8(bytes@) {
            decode_utf8(bytes@)
        } else {
            lossy_text(bytes@)
        },
{
    String::from_utf8_lossy(bytes.as_slice()).into_owned()
}

/// The text that shows the bytes of a column.
pub open spec fn shown_text(bytes: Seq<u8>) -> Seq<char> {
    if valid_utf8(bytes) {
        decode_utf8(bytes)
    } else {
        lossy_text(bytes)
    }
}

/// The tree that shows a column. A blob is not shown.
pub open spec fn cell_tree(cell: CellView) -> JsonView {
    match cell {
        CellView::Null => JsonView::Null,
        CellView::Integer(n) => integer_tree(n),
        CellView::Real(d) => double_tree(d),
        CellView::Text(bytes) => JsonView::Text(shown_text(bytes)),
        CellView::Blob => JsonView::Null,
    }
}

/// The tree that shows a column.
pub fn value_ref(cell: &Cell) -> (json: Json)
    ensures
        json@ == cell_tree(cell@),
{
    match cell {
        Cell::Null => Json::Null,
        Cell::Integer(n) => integer(*n),
        Cell::Real(d) => double(*d),
        Cell::Text(bytes) => Json::Text(text_of_bytes(bytes)),
        Cell::Blob => Json::Null,
    }
}

/// The members of the object that shows a row: `id`, and then the fields in column order.
pub open spec fn row_members(row: Seq<CellView>, fields: Seq<Seq<char>>) -> Seq<
    (Seq<char>, JsonView),
> {
    seq![("id"@, cell_tree(row[0]))] + Seq::new(
        fields.len(),
        |i: int| (fields[i], cell_tree(row[i + 1])),
    )
}

/// The tree that shows a row; none where the row has too few columns.
pub open spec fn row_tree(row: Seq<CellView>, resource: ResourceView) -> Option<JsonView> {
    if row.len() > resource.fields.len() {
        Some(JsonView::Object(row_members(row, resource.fields)))
    } else {
        None
    }
}

/// The tree that shows a row of the resource.
pub fn row_json(row: &Vec<Cell>, resource: &Resource) -> (json: Option<Json>)
    ensures
        match json {
            Some(json) => row_tree(cell_views(row@), resource@) == Some(json@),
            None => row_tree(cell_views(row@), resource@) is None,
        },
{
    if row.len() <= resource.fields.len() {
        return None;
    }
    let ghost cells = cell_views(row@);
    let ghost fields = resource@.fields;
    let ghost whole = row_members(cells, fields);
    let mut members = no_members();
    put_member(&mut members, "id", value_ref(&row[0]));
    let mut i: usize = 0;
    assert(member_views(members@) =~= whole.take(1));
    while i < resource.fields.len()
        invariant
            i <= resource.fields@.len(),
            resource.fields@.len() < row@.len(),
            cells == cell_views(row@),
            fields == literal_views(resource.fields@),
            whole == row_members(cells, fields),
            member_views(members@) == whole.take(i + 1),
        decreases resource.fields@.len() - i,
    {
        put_member(&mut members, resource.fields[i], value_ref(&row[i + 1]));
        assert(whole.take(i + 2) =~= whole.take(i + 1).push(whole[i + 1]));
        i = i + 1;
    }
    assert(whole.take(whole.len() as int) =~= whole);
    Some(object(members))
}

/// The fields that are given, in the column order of the resource.
pub open spec fn ordered(fields: Seq<Seq<char>>, entries: Entries) -> Entries
    decreases fields.len(),
{
    if fields.len() == 0 {
        Seq::empty()
    } else {
        let before = ordered(fields.drop_last(), entries);
        match lookup(entries, fields.last()) {
            Some(value) => before.push((fields.last(), value)),
            None => before,
        }
    }
}

/// The view of a list of columns with their values.
pub open spec fn column_views(columns: Seq<(&'static str, &Field)>) -> Entries {
    columns.map_values(|column: (&'static str, &Field)| (column.0@, column.1@))
}

/// The fields that are given, in the column order of the resource.
pub fn ordered_entries<'a>(resource: &Resource, entries: &'a Vec<(String, Field)>) -> (columns: Vec<
    (&'static str, &'a Field),
>)
    ensures
        column_views(columns@) == ordered(resource@.fields, entry_views(entries@)),
{
    let ghost fields = resource@.fields;
    let ghost views = entry_views(entries@);
    let mut columns: Vec<(&'static str, &'a Field)> = Vec::new();
    let mut i: usize = 0;
    assert(column_views(columns@) =~= ordered(fields.take(0), views));
    while i < resource.fields.len()
        invariant
            i <= resource.fields@.len(),
            fields == literal_views(resource.fields@),
            views == entry_views(entries@),
            column_views(columns@) == ordered(fields.take(i as int), views),
        decreases resource.fields@.len() - i,
    {
        let ghost before = columns@;
        let name: &'static str = resource.fields[i];
        proof {
            assert(fields.take(i + 1).drop_last() =~= fields.take(i as int));
            assert(fields.take(i + 1).last() == name@);
        }
        if let Some(value) = find(entries, name) {
            columns.push((name, value));
            assert(column_views(columns@) =~= column_views(before).push((name@, value@)));
        }
        i = i + 1;
    }
    assert(fields.take(fields.len() as int) =~= fields);
    columns
}

/// The value that a field is bound as; an array or an object has none.
pub open spec fn bound_value(value: FieldView) -> Option<SqlView> {
    match value {
        FieldView::Null => Some(SqlView::Null),
        FieldView::Bool(b) => Some(
            SqlView::Integer(
                if b {
                    1i64
                } else {
                    0i64
                },
            ),
        ),
        FieldView::Number(n) => Some(
            match n.integer() {
                Some(i) => SqlView::Integer(i),
                None => SqlView::Real(n),
            },
        ),
        FieldView::Text(t) => Some(SqlView::Text(t)),
        FieldView::Array => None,
        FieldView::Object => None,
    }
}

/// The value that a field is bound as.
pub fn sql_value(value: &Field) -> (bound: Result<SqlValue, &'static str>)
    ensures
        match bound {
            Ok(bound) => bound_value(value@) == Some(bound@),
            Err(message) => bound_value(value@) is None && message@
                == "field values must be scalar"@,
        },
{
    match value {
        Field::Null => Ok(SqlValue::Null),
        Field::Bool(b) => Ok(
            SqlValue::Integer(
                if *b {
                    1
                } else {
                    0
                },
            ),
        ),
        Field::Number(n) => match n.as_i64() {
            Some(i) => Ok(SqlValue::Integer(i)),
            None => Ok(SqlValue::Real(*n)),
        },
        Field::Text(t) => Ok(SqlValue::Text(t.clone())),
        Field::Array => Err("field values must be scalar"),
        Field::Object => Err("field values must be scalar"),
    }
}

/// Every column has a value that can be bound.
pub open spec fn bindable(columns: Entries) -> bool {
    forall|i: int| 0 <= i < columns.len() ==> bound_value((#[trigger] columns[i]).1) is Some
}

/// The values of the columns, as they are bound.
pub open spec fn bound_values(columns: Entries) -> Seq<SqlView> {
    columns.map_values(|column: (Seq<char>, FieldView)| bound_value(column.1)->0)
}

/// The values of the columns, as they are bound.
fn bind<'a>(columns: &Vec<(&'static str, &'a Field)>) -> (values: Result<
    Vec<SqlValue>,
    &'static str,
>)
    ensures
        match values {
            Ok(values) => bindable(column_views(columns@)) && value_views(values@) == bound_values(
                column_views(columns@),
            ),
            Err(message) => !bindable(column_views(columns@)) && message@
                == "field values must be scalar"@,
        },
{
    let ghost views = column_views(columns@);
    let mut values: Vec<SqlValue> = Vec::new();
    let mut i: usize = 0;
    assert(value_views(values@) =~= bound_values(views).take(0));
    while i < columns.len()
        invariant
            i <= columns@.len(),
            views == column_views(columns@),
            forall|j: int| 0 <= j < i ==> bound_value((#[trigger] views[j]).1) is Some,
            value_views(values@) == bound_values(views).take(i as int),
        decreases columns@.len() - i,
    {
        let ghost before = values@;
        assert(views[i as int].1 == columns@[i as int].1@);
        match sql_value(columns[i].1) {
            Ok(value) => {
                values.push(value);
                assert(value_views(values@) =~= value_views(before).push(value@));
                assert(bound_values(views).take(i + 1) =~= bound_values(views).take(i as int).push(
                    bound_values(views)[i as int],
                ));
            },
            Err(message) => {
                return Err(message);
            },
        }
        i = i + 1;
    }
    assert(bound_values(views).take(views.len() as int) =~= bound_values(views));
    Ok(values)
}

/// The names of the columns.
pub open spec fn column_names(columns: Entries) -> Seq<Seq<char>> {
    columns.map_values(|column: (Seq<char>, FieldView)| column.0)
}

/// The placeholders `?1` to `?n`.
pub open spec fn placeholders(n: nat) -> Seq<Seq<char>> {
    Seq::new(n, |i: int| "?"@ + decimal((i + 1) as nat))
}

/// The assignments of the columns to the placeholders from `?1` on.
pub open spec fn assignments(names: Seq<Seq<char>>) -> Seq<Seq<char>> {
    Seq::new(names.len(), |i: int| names[i] + " = ?"@ + decimal((i + 1) as nat))
}

/// The text that adds a record with these columns.
pub open spec fn insert_sql(table: Seq<char>, names: Seq<Seq<char>>) -> Seq<char> {
    "INSERT INTO "@ + table + " ("@ + joined(names, ", "@) + ") VALUES ("@ + joined(
        placeholders(names.len()),
        ", "@,
    ) + ")"@
}

/// The text that changes these columns of a record.
pub open spec fn update_sql(table: Seq<char>, names: Seq<Seq<char>>) -> Seq<char> {
    "UPDATE "@ + table + " SET "@ + joined(assignments(names), ", "@) + " WHERE id = ?"@ + decimal(
        names.len() + 1,
    )
}

/// The statement that adds a record with these fields; none where a field cannot be bound.
pub open spec fn insert_statement(resource: ResourceView, entries: Entries) -> Option<
    StatementView,
> {
    let columns = ordered(resource.fields, entries);
    if bindable(columns) {
        Some(
            StatementView {
                sql: insert_sql(resource.table, column_names(columns)),
                values: bound_values(columns),
            },
        )
    } else {
        None
    }
}

/// The statement that changes these fields of the record `id`; none where a field cannot be
/// bound.
pub open spec fn update_statement(resource: ResourceView, entries: Entries, id: i64) -> Option<
    StatementView,
> {
    let columns = ordered(resource.fields, entries);
    if bindable(columns) {
        Some(
            StatementView {
                sql: update_sql(resource.table, column_names(columns)),
                values: bound_values(columns).push(SqlView::Integer(id)),
            },
        )
    } else {
        None
    }
}

/// The statement that adds a record.
pub fn insert_record(resource: &Resource, entries: &Vec<(String, Field)>) -> (result: Result<
    Statement,
    &'static str,
>)
    ensures
        match result {
            Ok(statement) => insert_statement(resource@, entry_views(entries@)) == Some(
                statement@,
            ),
            Err(message) => insert_statement(resource@, entry_views(entries@)) is None && message@
                == "field values must be scalar"@,
        },
{
    let columns = ordered_entries(resource, entries);
    let ghost views = column_views(columns@);
    let mut names: Vec<String> = Vec::new();
    let mut marks: Vec<String> = Vec::new();
    let mut i: usize = 0;
    assert(text_views(names@) =~= column_names(views).take(0));
    assert(text_views(marks@) =~= placeholders(views.len()).take(0));
    while i < columns.len()
        invariant
            i <= columns@.len(),
            views == column_views(columns@),
            text_views(names@) == column_names(views).take(i as int),
            text_views(marks@) == placeholders(views.len()).take(i as int),
        decreases columns@.len() - i,
    {
        let ghost names_before = names@;
        let ghost marks_before = marks@;
        names.push(columns[i].0.to_owned());
        let mut mark = "?".to_owned();
        mark.append(decimal_text((i as u64) + 1).as_str());
        marks.push(mark);
        assert(text_views(names@) =~= text_views(names_before).push(views[i as int].0));
        assert(text_views(marks@) =~= text_views(marks_before).push("?"@ + decimal((i + 1) as nat)));
        assert(column_names(views).take(i + 1) =~= column_names(views).take(i as int).push(
            column_names(views)[i as int],
        ));
        assert(placeholders(views.len()).take(i + 1) =~= placeholders(views.len()).take(
            i as int,
        ).push(placeholders(views.len())[i as int]));
        i = i + 1;
    }
    assert(column_names(views).take(views.len() as int) =~= column_names(views));
    assert(placeholders(views.len()).take(views.len() as int) =~= placeholders(views.len()));
    let values = match bind(&columns) {
        Ok(values) => values,
        Err(message) => {
            return Err(message);
        },
    };
    let mut sql = "INSERT INTO ".to_owned();
    sql.append(resource.table);
    sql.append(" (");
    sql.append(join(&names, ", ").as_str());
    sql.append(") VALUES (");
    sql.append(join(&marks, ", ").as_str());
    sql.append(")");
    Ok(statement(sql.as_str(), values))
}

/// The statement that changes the record `id`.
pub fn update_record(resource: &Resource, entries: &Vec<(String, Field)>, id: i64) -> (result: Result<
    Statement,
    &'static str,
>)
    ensures
        match result {
            Ok(statement) => update_statement(resource@, entry_views(entries@), id) == Some(
                statement@,
            ),
            Err(message) => update_statement(resource@, entry_views(entries@), id) is None
                && message@ == "field values must be scalar"@,
        },
{
    let columns = ordered_entries(resource, entries);
    let ghost views = column_views(columns@);
    let ghost names = column_names(views);
    let mut parts: Vec<String> = Vec::new();
    let mut i: usize = 0;
    assert(text_views(parts@) =~= assignments(names).take(0));
    while i < columns.len()
        invariant
            i <= columns@.len(),
            views == column_views(columns@),
            names == column_names(views),
            text_views(parts@) == assignments(names).take(i as int),
        decreases columns@.len() - i,
    {
        let ghost before = parts@;
        let mut part = columns[i].0.to_owned();
        part.append(" = ?");
        part.append(decimal_text((i as u64) + 1).as_str());
        parts.push(part);
        assert(names[i as int] == columns@[i as int].0@);
        assert(text_views(parts@) =~= text_views(before).push(assignments(names)[i as int]));
        assert(assignments(names).take(i + 1) =~= assignments(names).take(i as int).push(
            assignments(names)[i as int],
        ));
        i = i + 1;
    }
    assert(assignments(names).take(names.len() as int) =~= assignments(names));
    let mut values = match bind(&columns) {
        Ok(values) => values,
        Err(message) => {
            return Err(message);
        },
    };
    let ghost bound = values@;
    values.push(SqlValue::Integer(id));
    assert(value_views(values@) =~= value_views(bound).push(SqlView::Integer(id)));
    let mut sql = "UPDATE ".to_owned();
    sql.append(resource.table);
    sql.append(" SET ");
    sql.append(join(&parts, ", ").as_str());
    sql.append(" WHERE id = ?");
    sql.append(decimal_text(values.len() as u64).as_str());
    Ok(statement(sql.as_str(), values))
}

/// The columns of a written record are the resource's fields for which something is given,
/// in the resource's order.
pub proof fn law_written_columns(fields: Seq<Seq<char>>, entries: Entries)
    ensures
        column_names(ordered(fields, entries)) == fields.filter(
            |name: Seq<char>| lookup(entries, name) is Some,
        ),
        forall|i: int|
            0 <= i < ordered(fields, entries).len() ==> lookup(
                entries,
                (#[trigger] ordered(fields, entries)[i]).0,
            ) == Some(ordered(fields, entries)[i].1),
    decreases fields.len(),
{
    reveal(Seq::filter);
    let given = |name: Seq<char>| lookup(entries, name) is Some;
    if fields.len() == 0 {
        assert(column_names(ordered(fields, entries)) =~= fields.filter(given));
    } else {
        law_written_columns(fields.drop_last(), entries);
        let before = ordered(fields.drop_last(), entries);
        match lookup(entries, fields.last()) {
            Some(value) => {
                assert(column_names(before.push((fields.last(), value))) =~= column_names(
                    before,
                ).push(fields.last()));
            },
            None => {},
        }
    }
}

/// The text of a statement is made of the resource and of which fields are given: no value
/// that a client sends becomes part of it. Each placeholder has one value.
pub proof fn law_values_stay_out_of_the_text(
    resource: ResourceView,
    entries: Entries,
    others: Entries,
    id: i64,
    other_id: i64,
)
    requires
        forall|name: Seq<char>| #[trigger]
            lookup(entries, name) is Some <==> lookup(others, name) is Some,
        insert_statement(resource, entries) is Some,
        insert_statement(resource, others) is Some,
    ensures
        insert_statement(resource, entries)->0.sql == insert_statement(resource, others)->0.sql,
        update_statement(resource, entries, id) is Some,
        update_statement(resource, others, other_id) is Some,
        update_statement(resource, entries, id)->0.sql == update_statement(
            resource,
            others,
            other_id,
        )->0.sql,
        insert_statement(resource, entries)->0.values.len() == ordered(
            resource.fields,
            entries,
        ).len(),
        update_statement(resource, entries, id)->0.values.len() == ordered(
            resource.fields,
            entries,
        ).len() + 1,
{
    law_written_columns(resource.fields, entries);
    law_written_columns(resource.fields, others);
    let here = |name: Seq<char>| lookup(entries, name) is Some;
    let there = |name: Seq<char>| lookup(others, name) is Some;
    assert(here =~= there);
}

/// Once a request is accepted, every value that is to be written can be bound.
pub proof fn law_accepted_fields_can_be_bound(
    resource: ResourceView,
    entries: Entries,
    create: bool,
    id: i64,
)
    requires
        field_verdict(resource, entries, create) is None,
    ensures
        insert_statement(resource, entries) is Some,
        update_statement(resource, entries, id) is Some,
{
    let columns = ordered(resource.fields, entries);
    law_written_columns(resource.fields, entries);
    assert forall|i: int| 0 <= i < columns.len() implies bound_value((#[trigger] columns[i]).1)
        is Some by {
        lemma_lookup_entry(entries, columns[i].0);
    }
}

/// The column that holds a bound value. Of an integer that only a double can hold it is not
/// said which double that is.
pub open spec fn stored_cell(value: SqlView) -> Option<CellView> {
    match value {
        SqlView::Null => Some(CellView::Null),
        SqlView::Integer(n) => Some(CellView::Integer(n)),
        SqlView::Real(JsonNumber::Float(d)) => Some(CellView::Real(d)),
        SqlView::Real(_) => None,
        SqlView::Text(t) => Some(CellView::Text(encode_utf8(t))),
    }
}

/// What is read is what was written. A field that is bound, stored as it is bound and shown
/// again is null where it was null, the same integer or the same finite double where it was
/// one, the same text where it was a text, and one or zero where it was true or false.
pub proof fn law_read_gives_back_what_was_written(value: FieldView)
    requires
        value.scalar(),
    ensures
        bound_value(value) is Some,
        ({
            let stored = stored_cell(bound_value(value)->0);
            match value {
                FieldView::Null => stored is Some && cell_tree(stored->0) == JsonView::Null,
                FieldView::Bool(b) => stored is Some && cell_tree(stored->0) == integer_tree(
                    if b {
                        1i64
                    } else {
                        0i64
                    },
                ),
                FieldView::Number(n) => {
                    &&& n.integer() is Some ==> stored is Some && cell_tree(stored->0)
                        == integer_tree(n.integer()->0)
                    &&& n is Float && n.finite() ==> stored is Some && cell_tree(stored->0)
                        == JsonView::Number(n)
                },
                FieldView::Text(t) => stored is Some && cell_tree(stored->0) == JsonView::Text(t),
                _ => true,
            }
        }),
{
    if let FieldView::Text(t) = value {
        encode_utf8_valid_utf8(t);
        encode_utf8_decode_utf8(t);
    }
}

/// A row stands under the names of its columns: the record that shows it has the id first, and
/// under each field the tree of that field's column.
pub proof fn law_rows_are_shown_by_column(row: Seq<CellView>, resource: ResourceView, i: int)
    requires
        row.len() == resource.fields.len() + 1,
        0 <= i < resource.fields.len(),
    ensures
        row_tree(row, resource) is Some,
        row_tree(row, resource)->0 is Object,
        ({
            let members = row_tree(row, resource)->0->Object_0;
            &&& members.len() == row.len()
            &&& members[0] == ("id"@, cell_tree(row[0]))
            &&& members[i + 1] == (resource.fields[i], cell_tree(row[i + 1]))
        }),
{
}

/// Every scalar is bound: a number by its integer where it has one, and else as a double; an
/// array or an object is not bound.
pub proof fn law_what_is_bound(value: FieldView)
    ensures
        bound_value(value) is None <==> value is Array || value is Object,
        value is Null ==> bound_value(value) == Some(SqlView::Null),
        value matches FieldView::Bool(b) ==> bound_value(value) == Some(
            SqlView::Integer(
                if b {
                    1
                } else {
                    0
                },
            ),
        ),
        value matches FieldView::Text(text) ==> bound_value(value) == Some(SqlView::Text(text)),
        value matches FieldView::Number(n) ==> (n.integer() matches Some(i) ==> bound_value(value)
            == Some(SqlView::Integer(i))),
        value matches FieldView::Number(n) ==> (n.integer() is None ==> bound_value(value) == Some(
            SqlView::Real(n),
        )),
{
}

/// A column is shown as what it holds: an integer by its value, a finite double by its bits, a
/// text that is valid UTF-8 by the characters that it encodes, and nothing else but null.
pub proof fn law_columns_are_shown_as_they_are(cell: CellView)
    ensures
        cell is Null || cell is Blob ==> cell_tree(cell) == JsonView::Null,
        cell matches CellView::Integer(n) ==> cell_tree(cell) is Number && cell_tree(
            cell,
        )->Number_0.integer() == Some(n),
        cell matches CellView::Real(d) ==> (cell_tree(cell) == if d.finite() {
            JsonView::Number(JsonNumber::Float(d))
        } else {
            JsonView::Null
        }),
        cell matches CellView::Text(bytes) ==> cell_tree(cell) is Text && (valid_utf8(bytes)
            ==> encode_utf8(cell_tree(cell)->Text_0) == bytes),
{
    if let CellView::Text(bytes) = cell {
        if valid_utf8(bytes) {
            decode_utf8_encode_utf8(bytes);
        }
    }
}

/// Each placeholder of an insertion is bound to the value of the column that stands at its
/// place, and those of a change too, with the id of the record behind them.
pub proof fn law_placeholders_are_bound_by_column(
    resource: ResourceView,
    entries: Entries,
    id: i64,
    i: int,
)
    requires
        insert_statement(resource, entries) is Some,
        0 <= i < column_names(ordered(resource.fields, entries)).len(),
    ensures
        ({
            let names = column_names(ordered(resource.fields, entries));
            let added = insert_statement(resource, entries)->0.values;
            let changed = update_statement(resource, entries, id)->0.values;
            &&& update_statement(resource, entries, id) is Some
            &&& added.len() == names.len()
            &&& changed.len() == names.len() + 1
            &&& lookup(entries, names[i]) is Some
            &&& Some(added[i]) == bound_value(lookup(entries, names[i])->0)
            &&& changed[i] == added[i]
            &&& changed.last() == SqlView::Integer(id)
        }),
{
    law_written_columns(resource.fields, entries);
    let columns = ordered(resource.fields, entries);
    assert(column_names(columns)[i] == columns[i].0);
}

/// The text of an insertion names the table, the columns, and as many placeholders, numbered from
/// one on.
pub proof fn law_insertions_name_table_and_columns(
    table: Seq<char>,
    names: Seq<Seq<char>>,
    i: int,
)
    requires
        0 <= i < names.len(),
    ensures
        ({
            let marks = placeholders(names.len());
            let sql = insert_sql(table, names);
            let head = "INSERT INTO "@ + table + " ("@ + joined(names, ", "@);
            let tail = ") VALUES ("@ + joined(marks, ", "@) + ")"@;
            &&& head.is_prefix_of(sql)
            &&& tail.is_suffix_of(sql)
            &&& sql.len() == head.len() + tail.len()
            &&& marks.len() == names.len()
            &&& marks[i][0] == '?'
            &&& numeral_value(marks[i].skip(1)) == i + 1
        }),
{
    let marks = placeholders(names.len());
    let sql = insert_sql(table, names);
    let head = "INSERT INTO "@ + table + " ("@ + joined(names, ", "@);
    let tail = ") VALUES ("@ + joined(marks, ", "@) + ")"@;
    assert(sql =~= head + tail);
    assert(sql.take(head.len() as int) =~= head);
    assert(sql.skip(head.len() as int) =~= tail);
    reveal_strlit("?");
    law_numerals_stand_for_their_number((i + 1) as nat);
    assert(marks[i].skip(1) =~= decimal((i + 1) as nat));
}

/// The text of a change names the table, sets each column to the placeholder at its place, and
/// picks the record by the placeholder behind them.
pub proof fn law_changes_set_each_column(table: Seq<char>, names: Seq<Seq<char>>, i: int)
    requires
        0 <= i < names.len(),
    ensures
        ({
            let parts = assignments(names);
            let sql = update_sql(table, names);
            let head = "UPDATE "@ + table + " SET "@ + joined(parts, ", "@) + " WHERE id = ?"@;
            let target = names[i] + " = ?"@;
            &&& head.is_prefix_of(sql)
            &&& numeral_value(sql.skip(head.len() as int)) == names.len() + 1
            &&& parts.len() == names.len()
            &&& target.is_prefix_of(parts[i])
            &&& numeral_value(parts[i].skip(target.len() as int)) == i + 1
        }),
{
    let parts = assignments(names);
    let sql = update_sql(table, names);
    let head = "UPDATE "@ + table + " SET "@ + joined(parts, ", "@) + " WHERE id = ?"@;
    let target = names[i] + " = ?"@;
    law_numerals_stand_for_their_number((i + 1) as nat);
    law_numerals_stand_for_their_number(names.len() + 1);
    assert(sql.take(head.len() as int) =~= head);
    assert(sql.skip(head.len() as int) =~= decimal(names.len() + 1));
    assert(parts[i].take(target.len() as int) =~= target);
    assert(parts[i].skip(target.len() as int) =~= decimal((i + 1) as nat));
}

} // verus!
