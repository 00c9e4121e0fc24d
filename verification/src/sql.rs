//! SQL statements with the values bound to their placeholders.
use crate::json::JsonNumber;
use vstd::prelude::*;
use vstd::string::*;

verus! {

/// A value bound to a placeholder.
#[derive(Debug, PartialEq)]
pub enum SqlValue {
    Null,
    Integer(i64),
    /// The double nearest to the number.
    Real(JsonNumber),
    Text(String),
}

/// The mathematical value of a [`SqlValue`].
pub enum SqlView {
    Null,
    Integer(i64),
    Real(JsonNumber),
    Text(Seq<char>),
}

impl View for SqlValue {
    type V = SqlView;

    open spec fn view(&self) -> SqlView {
        match self {
            SqlValue::Null => SqlView::Null,
            SqlValue::Integer(n) => SqlView::Integer(*n),
            SqlValue::Real(n) => SqlView::Real(*n),
            SqlValue::Text(t) => SqlView::Text(t@),
        }
    }
}

/// A statement: its text, and the values of the placeholders `?1`, `?2` and so on.
#[derive(Debug, PartialEq)]
pub struct Statement {
    pub sql: String,
    pub values: Vec<SqlValue>,
}

/// The mathematical value of a [`Statement`].
#[verifier::ext_equal]
pub struct StatementView {
    pub sql: Seq<char>,
    pub values: Seq<SqlView>,
}

/// The views of a list of bound values.
pub open spec fn value_views(values: Seq<SqlValue>) -> Seq<SqlView> {
    values.map_values(|value: SqlValue| value@)
}

impl View for Statement {
    type V = StatementView;

    open spec fn view(&self) -> StatementView {
        StatementView { sql: self.sql@, values: value_views(self.values@) }
    }
}

/// The views of a list of statements.
pub open spec fn statement_views(statements: Seq<Statement>) -> Seq<StatementView> {
    statements.map_values(|statement: Statement| statement@)
}

/// An integer, or `NULL` where it is absent.
pub open spec fn optional_integer_value(n: Option<i64>) -> SqlView {
    match n {
        Some(n) => SqlView::Integer(n),
        None => SqlView::Null,
    }
}

/// A text, or `NULL` where it is absent.
pub open spec fn optional_text_value(text: Option<Seq<char>>) -> SqlView {
    match text {
        Some(t) => SqlView::Text(t),
        None => SqlView::Null,
    }
}

/// A value for an integer, or `NULL` where it is absent.
pub fn integer_or_null(n: Option<i64>) -> (value: SqlValue)
    ensures
        value@ == optional_integer_value(n),
{
    match n {
        Some(n) => SqlValue::Integer(n),
        None => SqlValue::Null,
    }
}

/// A value for a text, or `NULL` where it is absent.
pub fn text_or_null(text: &Option<String>) -> (value: SqlValue)
    ensures
        value@ == optional_text_value(crate::text::optional_text(*text)),
{
    match text {
        Some(t) => SqlValue::Text(t.clone()),
        None => SqlValue::Null,
    }
}

/// A value for a text.
pub fn text_value(text: &str) -> (value: SqlValue)
    ensures
        value@ == SqlView::Text(text@),
{
    SqlValue::Text(text.to_owned())
}

/// The statement with this text and these values.
pub fn statement(sql: &str, values: Vec<SqlValue>) -> (result: Statement)
    ensures
        result@ == (StatementView { sql: sql@, values: value_views(values@) }),
{
    Statement { sql: sql.to_owned(), values }
}

/// An optional value is bound as itself, and as `NULL` where it is absent.
pub proof fn law_absent_values_are_null(n: i64, text: Seq<char>)
    ensures
        optional_integer_value(Some(n)) == SqlView::Integer(n),
        optional_integer_value(None) == SqlView::Null,
        optional_text_value(Some(text)) == SqlView::Text(text),
        optional_text_value(None) == SqlView::Null,
{
}

} // verus!
