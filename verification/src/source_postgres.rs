//! What the catalog of a PostgreSQL server says, read into catalog objects.
//!
//! The queries themselves are made elsewhere. This module takes the rows
//! they return, as plain values, and builds the objects from them.

use crate::altertable::{Wrapped, WrappedView};
use crate::column::{ColumnDef, ColumnDefView, ColumnOption, ColumnOptionView, DataType, Expr};
use crate::name::{Ident, IdentView, ObjectName};
use crate::results::{all_or_first_failure, deep_results, gather};
use crate::table::{TableDef, TableDefView};
use crate::views::{deep_result, lemma_push_deep_view};
use sqlparser::ast::ObjectNamePart;
use sqlparser::dialect::PostgreSqlDialect;
use sqlparser::parser::Parser;
use vstd::prelude::*;
use vstd::std_specs::cmp::PartialEqSpecImpl;
use vstd::string::StringExecFns;

verus! {

/// Why a value of the catalog could not be read.
#[derive(Debug)]
pub enum SourceError {
    /// The catalog holds no text where a name or a type was expected.
    NoStringValue,
    /// The catalog holds no text where an expression was expected.
    NoExprValue,
    /// The text is not what it should be; the parser's message.
    Parse(String),
}

pub enum SourceErrorView {
    NoStringValue,
    NoExprValue,
    Parse(Seq<char>),
}

impl DeepView for SourceError {
    type V = SourceErrorView;

    open spec fn deep_view(&self) -> SourceErrorView {
        match self {
            SourceError::NoStringValue => SourceErrorView::NoStringValue,
            SourceError::NoExprValue => SourceErrorView::NoExprValue,
            SourceError::Parse(m) => SourceErrorView::Parse(m@),
        }
    }
}

impl View for SourceError {
    type V = SourceErrorView;

    open spec fn view(&self) -> SourceErrorView {
        self.deep_view()
    }
}

impl PartialEq for SourceError {
    fn eq(&self, other: &Self) -> (r: bool) {
        match (self, other) {
            (SourceError::NoStringValue, SourceError::NoStringValue) => true,
            (SourceError::NoExprValue, SourceError::NoExprValue) => true,
            (SourceError::Parse(a), SourceError::Parse(b)) => *a == *b,
            _ => false,
        }
    }
}

impl PartialEqSpecImpl for SourceError {
    open spec fn obeys_eq_spec() -> bool {
        true
    }

    open spec fn eq_spec(&self, other: &Self) -> bool {
        self@ == other@
    }
}

/// What the SQL parser makes of a text that should start with an
/// identifier: the identifier, or the parser's message.
pub uninterp spec fn parsed_identifier(sql: Seq<char>) -> Result<IdentView, Seq<char>>;

/// What the SQL parser makes of a text that should start with a qualified
/// name: its parts, or the parser's message.
pub uninterp spec fn parsed_object_name(sql: Seq<char>) -> Result<Seq<IdentView>, Seq<char>>;

/// What the SQL parser makes of a text that should start with an
/// expression: the expression's canonical text, or the parser's message.
pub uninterp spec fn parsed_expr(sql: Seq<char>) -> Result<Seq<char>, Seq<char>>;

/// What the SQL parser makes of a text that should start with a data type:
/// the type's canonical text, or the parser's message.
pub uninterp spec fn parsed_data_type(sql: Seq<char>) -> Result<Seq<char>, Seq<char>>;

/// Calls sqlparser's `Parser::parse_identifier` on the tokens of `sql`,
/// under the PostgreSQL dialect. The claim is only that the outcome is a
/// function of the text: the identifier's value and quote as the parser
/// gives them, or the text of its error.
#[verifier::external_body]
fn parse_identifier(sql: &str) -> (r: Result<Ident, String>)
    ensures
        deep_result(r) == parsed_identifier(sql@),
{
    let dialect = PostgreSqlDialect {};
    match Parser::new(&dialect).try_with_sql(sql).and_then(|mut p| p.parse_identifier()) {
        Ok(i) => Ok(Ident { value: i.value, quote_style: i.quote_style }),
        Err(e) => Err(e.to_string()),
    }
}

/// Calls sqlparser's `Parser::parse_object_name` on the tokens of `sql`,
/// under the PostgreSQL dialect. The claim is only that the outcome is a
/// function of the text: the parts of the name in order, each with its
/// value and quote, or the text of the parser's error.
#[verifier::external_body]
fn parse_object_name(sql: &str) -> (r: Result<ObjectName, String>)
    ensures
        deep_result(r) == parsed_object_name(sql@),
{
    let dialect = PostgreSqlDialect {};
    match Parser::new(&dialect).try_with_sql(sql).and_then(|mut p| p.parse_object_name(false)) {
        Ok(n) => Ok(ObjectName { parts: n.0.into_iter().map(|part| match part {
            ObjectNamePart::Identifier(i) => Ident { value: i.value, quote_style: i.quote_style },
        }).collect() }),
        Err(e) => Err(e.to_string()),
    }
}

/// Calls sqlparser's `Parser::parse_expr` on the tokens of `sql`, under the
/// PostgreSQL dialect, and prints the expression as sqlparser displays it.
/// The claim is only that the outcome is a function of the text.
#[verifier::external_body]
fn parse_expr(sql: &str) -> (r: Result<Expr, String>)
    ensures
        deep_result(r) == parsed_expr(sql@),
{
    let dialect = PostgreSqlDialect {};
    match Parser::new(&dialect).try_with_sql(sql).and_then(|mut p| p.parse_expr()) {
        Ok(e) => Ok(Expr { sql: e.to_string() }),
        Err(e) => Err(e.to_string()),
    }
}

/// Calls sqlparser's `Parser::parse_data_type` on the tokens of `sql`,
/// under the PostgreSQL dialect, and prints the type as sqlparser displays
/// it. The claim is only that the outcome is a function of the text.
#[verifier::external_body]
fn parse_data_type(sql: &str) -> (r: Result<DataType, String>)
    ensures
        deep_result(r) == parsed_data_type(sql@),
{
    let dialect = PostgreSqlDialect {};
    match Parser::new(&dialect).try_with_sql(sql).and_then(|mut p| p.parse_data_type()) {
        Ok(t) => Ok(DataType { sql: t.to_string() }),
        Err(e) => Err(e.to_string()),
    }
}

/// A failure of the parser, as a failure to read the catalog.
pub open spec fn unparsed<T>(outcome: Result<T, Seq<char>>) -> Result<T, SourceErrorView> {
    match outcome {
        Ok(value) => Ok(value),
        Err(message) => Err(SourceErrorView::Parse(message)),
    }
}

/// The identifier that a text of the catalog holds: `NoStringValue` where
/// the text is absent, else what the parser makes of it.
pub open spec fn text_to_ident(text: Option<Seq<char>>) -> Result<IdentView, SourceErrorView> {
    match text {
        None => Err(SourceErrorView::NoStringValue),
        Some(sql) => unparsed(parsed_identifier(sql)),
    }
}

/// The qualified name that a text of the catalog holds: `NoStringValue`
/// where the text is absent, else what the parser makes of it.
pub open spec fn text_to_object_name(text: Option<Seq<char>>) -> Result<
    Seq<IdentView>,
    SourceErrorView,
> {
    match text {
        None => Err(SourceErrorView::NoStringValue),
        Some(sql) => unparsed(parsed_object_name(sql)),
    }
}

/// The expression that a text of the catalog holds: `NoExprValue` where
/// the text is absent, else what the parser makes of it.
pub open spec fn text_to_expr(text: Option<Seq<char>>) -> Result<Seq<char>, SourceErrorView> {
    match text {
        None => Err(SourceErrorView::NoExprValue),
        Some(sql) => unparsed(parsed_expr(sql)),
    }
}

/// The data type that a text of the catalog holds: `NoStringValue` where
/// the text is absent, else what the parser makes of it.
pub open spec fn text_to_datatype(text: Option<Seq<char>>) -> Result<Seq<char>, SourceErrorView> {
    match text {
        None => Err(SourceErrorView::NoStringValue),
        Some(sql) => unparsed(parsed_data_type(sql)),
    }
}

/// What was read, once the parser has answered: its value, or its message
/// as a `Parse` failure.
pub fn parse_outcome<T: DeepView>(outcome: Result<T, String>) -> (r: Result<T, SourceError>)
    ensures
        deep_result(r) == unparsed(deep_result(outcome)),
{
    match outcome {
        Ok(value) => Ok(value),
        Err(message) => Err(SourceError::Parse(message)),
    }
}

/// Reads an identifier from a text of the catalog.
pub fn string_to_ident(os: Option<String>) -> (r: Result<Ident, SourceError>)
    ensures
        deep_result(r) == text_to_ident(os.deep_view()),
{
    match os {
        Some(s) => parse_outcome(parse_identifier(s.as_str())),
        None => Err(SourceError::NoStringValue),
    }
}

/// Reads a qualified name from a text of the catalog.
pub fn string_to_object_name(os: Option<String>) -> (r: Result<ObjectName, SourceError>)
    ensures
        deep_result(r) == text_to_object_name(os.deep_view()),
{
    match os {
        Some(s) => parse_outcome(parse_object_name(s.as_str())),
        None => Err(SourceError::NoStringValue),
    }
}

/// Reads an expression from a text of the catalog.
pub fn string_to_expr(os: Option<String>) -> (r: Result<Expr, SourceError>)
    ensures
        deep_result(r) == text_to_expr(os.deep_view()),
{
    match os {
        Some(s) => parse_outcome(parse_expr(s.as_str())),
        None => Err(SourceError::NoExprValue),
    }
}

/// Reads a data type from a text of the catalog.
pub fn string_to_datatype(os: Option<String>) -> (r: Result<DataType, SourceError>)
    ensures
        deep_result(r) == text_to_datatype(os.deep_view()),
{
    match os {
        Some(s) => parse_outcome(parse_data_type(s.as_str())),
        None => Err(SourceError::NoStringValue),
    }
}

/// One row of the catalog's view of columns.
#[derive(Debug)]
pub struct PGTableColumn {
    pub column_name: Option<String>,
    pub column_default: Option<String>,
    pub is_nullable: Option<String>,
    pub data_type: Option<String>,
}

pub struct PGTableColumnView {
    pub column_name: Option<Seq<char>>,
    pub column_default: Option<Seq<char>>,
    pub is_nullable: Option<Seq<char>>,
    pub data_type: Option<Seq<char>>,
}

impl DeepView for PGTableColumn {
    type V = PGTableColumnView;

    open spec fn deep_view(&self) -> PGTableColumnView {
        PGTableColumnView {
            column_name: self.column_name.deep_view(),
            column_default: self.column_default.deep_view(),
            is_nullable: self.is_nullable.deep_view(),
            data_type: self.data_type.deep_view(),
        }
    }
}

impl View for PGTableColumn {
    type V = PGTableColumnView;

    open spec fn view(&self) -> PGTableColumnView {
        self.deep_view()
    }
}

/// The column that the parts of a row make: its name must have been read,
/// and then its type. It is `NOT NULL` where the catalog says `NO` to
/// nullable, and has the default where one was read; a default that could
/// not be read is passed over.
pub open spec fn column_of_parts(
    name: Result<IdentView, SourceErrorView>,
    data_type: Result<Seq<char>, SourceErrorView>,
    is_nullable: Option<Seq<char>>,
    default: Result<Seq<char>, SourceErrorView>,
) -> Result<ColumnDefView, SourceErrorView> {
    let not_null = if is_nullable == Some("NO"@) {
        seq![ColumnOptionView::NotNull]
    } else {
        Seq::empty()
    };
    let options = match default {
        Ok(expr) => not_null.push(ColumnOptionView::Default(expr)),
        Err(_) => not_null,
    };
    match name {
        Err(e) => Err(e),
        Ok(name) => match data_type {
            Err(e) => Err(e),
            Ok(data_type) => Ok(ColumnDefView { name, data_type, options }),
        },
    }
}

/// The column that a row of the catalog describes.
pub open spec fn column_of_row(row: PGTableColumnView) -> Result<ColumnDefView, SourceErrorView> {
    column_of_parts(
        text_to_ident(row.column_name),
        text_to_datatype(row.data_type),
        row.is_nullable,
        text_to_expr(row.column_default),
    )
}

fn clone_text(text: &Option<String>) -> (r: Option<String>)
    ensures
        r.deep_view() == text.deep_view(),
{
    match text {
        Some(s) => Some(s.clone()),
        None => None,
    }
}

/// Builds a column from what was read of its row.
pub fn column_from_parts(
    name: Result<Ident, SourceError>,
    data_type: Result<DataType, SourceError>,
    is_nullable: &Option<String>,
    default: Result<Expr, SourceError>,
) -> (r: Result<ColumnDef, SourceError>)
    ensures
        deep_result(r) == column_of_parts(
            deep_result(name),
            deep_result(data_type),
            is_nullable.deep_view(),
            deep_result(default),
        ),
{
    let mut options: Vec<ColumnOption> = Vec::new();
    let not_null = match is_nullable {
        Some(value) => *value == "NO".to_owned(),
        None => false,
    };
    if not_null {
        options.push(ColumnOption::NotNull);
    }
    let ghost not_null_options = options.deep_view();
    match default {
        Ok(expr) => {
            let ghost before = options;
            options.push(ColumnOption::Default(expr));
            proof {
                lemma_push_deep_view(before, options, options[options.len() - 1]);
            }
        },
        Err(_) => {},
    }
    assert(not_null_options =~= if is_nullable.deep_view() == Some("NO"@) {
        seq![ColumnOptionView::NotNull]
    } else {
        Seq::empty()
    });
    let name = match name {
        Ok(name) => name,
        Err(e) => {
            return Err(e);
        },
    };
    let data_type = match data_type {
        Ok(data_type) => data_type,
        Err(e) => {
            return Err(e);
        },
    };
    Ok(ColumnDef { name, data_type, options })
}

/// Builds the column that a row of the catalog describes.
pub fn column_from_row(row: &PGTableColumn) -> (r: Result<ColumnDef, SourceError>)
    ensures
        deep_result(r) == column_of_row(row@),
{
    let default = string_to_expr(clone_text(&row.column_default));
    let name = string_to_ident(clone_text(&row.column_name));
    let data_type = string_to_datatype(clone_text(&row.data_type));
    column_from_parts(name, data_type, &row.is_nullable, default)
}

pub open spec fn reading_column() -> spec_fn(PGTableColumnView) -> Result<
    ColumnDefView,
    SourceErrorView,
> {
    |row: PGTableColumnView| column_of_row(row)
}

/// The columns that the rows of the catalog describe, in the order of the
/// rows; or the failure of the first row that cannot be read.
pub open spec fn columns_of_rows(rows: Seq<PGTableColumnView>) -> Result<
    Seq<ColumnDefView>,
    SourceErrorView,
> {
    all_or_first_failure(rows.map_values(reading_column()))
}

/// Builds the columns of a table from the rows that the catalog holds for
/// it.
pub fn table_columns(rows: &Vec<PGTableColumn>) -> (r: Result<Vec<ColumnDef>, SourceError>)
    ensures
        deep_result(r) == columns_of_rows(rows.deep_view()),
{
    let ghost all = rows.deep_view();
    let mut read: Vec<Result<ColumnDef, SourceError>> = Vec::new();
    let mut i: usize = 0;
    while i < rows.len()
        invariant
            i <= rows.len(),
            all == rows.deep_view(),
            read.len() == i,
            read@.map_values(deep_results::<ColumnDef, SourceError>()) == all.take(
                i as int,
            ).map_values(reading_column()),
        decreases rows.len() - i,
    {
        let ghost before = read@;
        assert(all[i as int] == rows[i as int]@);
        read.push(column_from_row(&rows[i]));
        assert forall|k: int| 0 <= k < i + 1 implies read@.map_values(
            deep_results::<ColumnDef, SourceError>(),
        )[k] == all.take(i as int + 1).map_values(reading_column())[k] by {
            if k < i {
                assert(before.map_values(deep_results::<ColumnDef, SourceError>())[k] == all.take(
                    i as int,
                ).map_values(reading_column())[k]);
            }
        }
        assert(read@.map_values(deep_results::<ColumnDef, SourceError>()) =~= all.take(
            i as int + 1,
        ).map_values(reading_column()));
        i += 1;
    }
    proof {
        assert(all.take(rows.len() as int) =~= all);
    }
    gather(read)
}

/// The extension that a name read from the catalog stands for.
pub open spec fn extension_of(name: Result<IdentView, SourceErrorView>) -> Result<
    WrappedView,
    SourceErrorView,
> {
    match name {
        Ok(name) => Ok(WrappedView::CreateExtension { name }),
        Err(e) => Err(e),
    }
}

/// Builds the extension that a name read from the catalog stands for.
pub fn extension_from(name: Result<Ident, SourceError>) -> (r: Result<Wrapped, SourceError>)
    ensures
        deep_result(r) == extension_of(deep_result(name)),
{
    match name {
        Ok(name) => Ok(Wrapped::CreateExtension { name }),
        Err(e) => Err(e),
    }
}

/// Builds the extension that a row of the catalog names.
pub fn extension_from_row(extname: Option<String>) -> (r: Result<Wrapped, SourceError>)
    ensures
        deep_result(r) == extension_of(text_to_ident(extname.deep_view())),
{
    extension_from(string_to_ident(extname))
}

pub open spec fn reading_extension() -> spec_fn(Option<Seq<char>>) -> Result<
    WrappedView,
    SourceErrorView,
> {
    |extname: Option<Seq<char>>| extension_of(text_to_ident(extname))
}

/// The extensions that the rows of the catalog name, in the order of the
/// rows; or the failure of the first row that cannot be read.
pub open spec fn extensions_of_rows(rows: Seq<Option<Seq<char>>>) -> Result<
    Seq<WrappedView>,
    SourceErrorView,
> {
    all_or_first_failure(rows.map_values(reading_extension()))
}

/// Builds the installed extensions from the rows that the catalog holds.
pub fn pg_extensions(rows: &Vec<Option<String>>) -> (r: Result<Vec<Wrapped>, SourceError>)
    ensures
        deep_result(r) == extensions_of_rows(rows.deep_view()),
{
    let ghost all = rows.deep_view();
    let mut read: Vec<Result<Wrapped, SourceError>> = Vec::new();
    let mut i: usize = 0;
    while i < rows.len()
        invariant
            i <= rows.len(),
            all == rows.deep_view(),
            read.len() == i,
            read@.map_values(deep_results::<Wrapped, SourceError>()) == all.take(
                i as int,
            ).map_values(reading_extension()),
        decreases rows.len() - i,
    {
        let ghost before = read@;
        assert(all[i as int] == rows[i as int].deep_view());
        read.push(extension_from_row(clone_text(&rows[i])));
        assert forall|k: int| 0 <= k < i + 1 implies read@.map_values(
            deep_results::<Wrapped, SourceError>(),
        )[k] == all.take(i as int + 1).map_values(reading_extension())[k] by {
            if k < i {
                assert(before.map_values(deep_results::<Wrapped, SourceError>())[k] == all.take(
                    i as int,
                ).map_values(reading_extension())[k]);
            }
        }
        assert(read@.map_values(deep_results::<Wrapped, SourceError>()) =~= all.take(
            i as int + 1,
        ).map_values(reading_extension()));
        i += 1;
    }
    proof {
        assert(all.take(rows.len() as int) =~= all);
    }
    gather(read)
}

/// The text of a table constraint, made of the name and the definition
/// that the catalog holds for it.
pub fn constraint_sql(conname: &str, definition: &str) -> (r: String)
    ensures
        r@ == "CONSTRAINT "@ + conname@ + " "@ + definition@,
{
    let mut r = "CONSTRAINT ".to_owned();
    r.append(conname);
    r.append(" ");
    r.append(definition);
    r
}

pub open spec fn replacing(t: TableDefView) -> spec_fn(TableDefView) -> TableDefView {
    |held: TableDefView|
        if held.name == t.name {
            t
        } else {
            held
        }
}

/// The tables once `t` is recorded: it takes the place of every table of
/// its name, or comes last where there is none.
pub open spec fn with_table(tables: Seq<TableDefView>, t: TableDefView) -> Seq<TableDefView> {
    if exists|i: int| 0 <= i < tables.len() && (#[trigger] tables[i]).name == t.name {
        tables.map_values(replacing(t))
    } else {
        tables.push(t)
    }
}

/// No two of the tables share a name.
pub open spec fn distinct_names(tables: Seq<TableDefView>) -> bool {
    forall|i: int, j: int|
        0 <= i < j < tables.len() ==> (#[trigger] tables[i]).name != (#[trigger] tables[j]).name
}

/// Records a table under its name: a table recorded earlier under that
/// name gives way to it.
pub fn put_table(tables: &mut Vec<TableDef>, t: TableDef)
    ensures
        final(tables).deep_view() == with_table(old(tables).deep_view(), t@),
        distinct_names(old(tables).deep_view()) ==> distinct_names(final(tables).deep_view()),
{
    let ghost before = tables.deep_view();
    let mut found = false;
    let mut i: usize = 0;
    while i < tables.len()
        invariant
            i <= tables.len(),
            tables.len() == before.len(),
            found == (exists|k: int| 0 <= k < i && (#[trigger] before[k]).name == t@.name),
            forall|k: int|
                0 <= k < i ==> (#[trigger] tables.deep_view()[k]) == replacing(t@)(before[k]),
            forall|k: int|
                i <= k < before.len() ==> (#[trigger] tables.deep_view()[k]) == before[k],
        decreases tables.len() - i,
    {
        let ghost held = tables.deep_view();
        assert(held[i as int] == tables[i as int]@);
        if tables[i].name == t.name {
            tables.set(i, t.clone());
            found = true;
            assert forall|k: int| 0 <= k < tables.len() implies (#[trigger] tables.deep_view()[k])
                == (if k == i {
                t@
            } else {
                held[k]
            }) by {
                assert(tables.deep_view()[k] == tables[k]@);
                if k != i {
                    assert(held[k] == tables[k]@);
                }
            }
        }
        i += 1;
    }
    if found {
        assert(tables.deep_view() =~= before.map_values(replacing(t@)));
    } else {
        let ghost held = *tables;
        tables.push(t);
        proof {
            lemma_push_deep_view(held, *tables, t);
            assert(held.deep_view() =~= before);
        }
    }
}

pub open spec fn as_object() -> spec_fn(TableDefView) -> WrappedView {
    |t: TableDefView| WrappedView::CreateTable(t)
}

/// The objects of the catalog: the tables, then the indexes, then the
/// extensions.
pub fn catalog(tables: Vec<TableDef>, indexes: Vec<Wrapped>, extensions: Vec<Wrapped>) -> (r: Vec<
    Wrapped,
>)
    ensures
        r.deep_view() == tables.deep_view().map_values(as_object()) + indexes.deep_view()
            + extensions.deep_view(),
{
    let ghost all = tables.deep_view();
    let mut r: Vec<Wrapped> = Vec::new();
    let mut i: usize = 0;
    while i < tables.len()
        invariant
            i <= tables.len(),
            all == tables.deep_view(),
            r.deep_view() == all.take(i as int).map_values(as_object()),
        decreases tables.len() - i,
    {
        let ghost before = r;
        assert(all[i as int] == tables[i as int]@);
        r.push(Wrapped::CreateTable(tables[i].clone()));
        proof {
            lemma_push_deep_view(before, r, r[r.len() - 1]);
        }
        assert(r.deep_view() =~= all.take(i as int + 1).map_values(as_object()));
        i += 1;
    }
    proof {
        assert(all.take(tables.len() as int) =~= all);
    }
    let mut indexes = indexes;
    let mut extensions = extensions;
    let ghost first = r;
    let ghost second = indexes;
    let ghost third = extensions;
    r.append(&mut indexes);
    r.append(&mut extensions);
    assert(r.deep_view() =~= first.deep_view() + second.deep_view() + third.deep_view());
    r
}

} // verus!
