use declare_schema::altertable::Wrapped;
use declare_schema::column::{ColumnDef, ColumnOption, DataType, Expr};
use declare_schema::name::{Ident, ObjectName};
use declare_schema::results::gather;
use declare_schema::source_postgres::{
    catalog, column_from_parts, column_from_row, constraint_sql, extension_from,
    extension_from_row, parse_outcome, pg_extensions, put_table, string_to_datatype,
    string_to_expr, string_to_ident, string_to_object_name, table_columns, PGTableColumn,
    SourceError,
};
use declare_schema::table::TableDef;

fn text(s: &str) -> Option<String> {
    Some(s.to_string())
}

fn row(name: &str, default: Option<&str>, nullable: Option<&str>, data_type: &str) -> PGTableColumn {
    PGTableColumn {
        column_name: text(name),
        column_default: default.map(|s| s.to_string()),
        is_nullable: nullable.map(|s| s.to_string()),
        data_type: text(data_type),
    }
}

fn named_table(name: &str, columns: Vec<ColumnDef>) -> TableDef {
    TableDef { name: ObjectName { parts: vec![Ident::new(name)] }, columns, constraints: vec![] }
}

#[test]
fn ident_is_read_with_its_quote() {
    assert_eq!(string_to_ident(text("foo")), Ok(Ident::new("foo")));
    assert_eq!(string_to_ident(text("\"Foo Bar\"")), Ok(Ident::with_quote('"', "Foo Bar")));
    assert_eq!(string_to_ident(text("  spaced  ")), Ok(Ident::new("spaced")));
}

#[test]
fn missing_ident_is_no_string_value() {
    assert_eq!(string_to_ident(None), Err(SourceError::NoStringValue));
}

#[test]
fn unreadable_ident_is_a_parse_error() {
    match string_to_ident(text("(")) {
        Err(SourceError::Parse(message)) => assert!(message.contains("identifier"), "{message}"),
        other => panic!("Not the right error {other:?}"),
    }
    assert!(matches!(string_to_ident(text("")), Err(SourceError::Parse(_))));
    assert!(matches!(string_to_ident(text("'open")), Err(SourceError::Parse(_))));
}

#[test]
fn object_name_is_read_part_by_part() {
    assert_eq!(
        string_to_object_name(text("public.\"My Table\"")),
        Ok(ObjectName { parts: vec![Ident::new("public"), Ident::with_quote('"', "My Table")] })
    );
    assert_eq!(
        string_to_object_name(text("test")),
        Ok(ObjectName { parts: vec![Ident::new("test")] })
    );
    assert_eq!(string_to_object_name(None), Err(SourceError::NoStringValue));
    assert!(matches!(string_to_object_name(text("1")), Err(SourceError::Parse(_))));
}

#[test]
fn expr_is_read_into_canonical_text() {
    assert_eq!(string_to_expr(text("1+1")), Ok(Expr::new("1 + 1")));
    assert_eq!(string_to_expr(text("'foo'::text")), Ok(Expr::new("'foo'::TEXT")));
    assert_eq!(string_to_expr(text("now( )")), Ok(Expr::new("now()")));
    assert_eq!(string_to_expr(None), Err(SourceError::NoExprValue));
    assert!(matches!(string_to_expr(text("1 +")), Err(SourceError::Parse(_))));
}

#[test]
fn data_type_is_read_into_canonical_text() {
    assert_eq!(string_to_datatype(text("uuid")), Ok(DataType::new("UUID")));
    assert_eq!(string_to_datatype(text("character varying")), Ok(DataType::new("CHARACTER VARYING")));
    assert_eq!(string_to_datatype(text("integer")), Ok(DataType::new("INTEGER")));
    assert_eq!(string_to_datatype(None), Err(SourceError::NoStringValue));
    assert!(matches!(string_to_datatype(text(")")), Err(SourceError::Parse(_))));
}

#[test]
fn column_row_gives_not_null_then_default() {
    let column = column_from_row(&row("id", Some("gen_random_uuid()"), Some("NO"), "uuid"));

    assert_eq!(
        column,
        Ok(ColumnDef {
            name: Ident::new("id"),
            data_type: DataType::new("UUID"),
            options: vec![
                ColumnOption::NotNull,
                ColumnOption::Default(Expr::new("gen_random_uuid()")),
            ],
        })
    );
}

#[test]
fn nullable_column_row_has_no_option() {
    for nullable in [Some("YES"), Some("no"), Some("maybe"), None] {
        let column = column_from_row(&row("name", None, nullable, "text"));

        assert_eq!(
            column,
            Ok(ColumnDef {
                name: Ident::new("name"),
                data_type: DataType::new("TEXT"),
                options: vec![],
            })
        );
    }
}

#[test]
fn unreadable_default_is_passed_over() {
    let column = column_from_row(&row("n", Some("1 +"), Some("NO"), "integer"));

    assert_eq!(
        column,
        Ok(ColumnDef {
            name: Ident::new("n"),
            data_type: DataType::new("INTEGER"),
            options: vec![ColumnOption::NotNull],
        })
    );
}

#[test]
fn column_row_needs_name_then_type() {
    let no_name = PGTableColumn {
        column_name: None,
        column_default: None,
        is_nullable: None,
        data_type: text(")"),
    };
    assert_eq!(column_from_row(&no_name), Err(SourceError::NoStringValue));

    let no_type = PGTableColumn {
        column_name: text("id"),
        column_default: None,
        is_nullable: None,
        data_type: None,
    };
    assert_eq!(column_from_row(&no_type), Err(SourceError::NoStringValue));

    let bad_name = row("(", None, None, "uuid");
    assert!(matches!(column_from_row(&bad_name), Err(SourceError::Parse(_))));
}

#[test]
fn table_columns_keep_the_order_of_the_rows() {
    let rows = vec![row("b", None, Some("NO"), "text"), row("a", Some("0"), None, "int")];

    assert_eq!(
        table_columns(&rows),
        Ok(vec![
            ColumnDef {
                name: Ident::new("b"),
                data_type: DataType::new("TEXT"),
                options: vec![ColumnOption::NotNull],
            },
            ColumnDef {
                name: Ident::new("a"),
                data_type: DataType::new("INT"),
                options: vec![ColumnOption::Default(Expr::new("0"))],
            },
        ])
    );
    assert_eq!(table_columns(&vec![]), Ok(vec![]));
}

#[test]
fn table_columns_fail_at_the_first_unreadable_row() {
    let mut nameless = row("x", None, None, "int");
    nameless.column_name = None;
    let rows = vec![row("a", None, None, "int"), nameless, row("(", None, None, "int")];

    assert_eq!(table_columns(&rows), Err(SourceError::NoStringValue));
}

#[test]
fn extension_rows_give_extensions() {
    assert_eq!(
        extension_from_row(text("ltree")),
        Ok(Wrapped::CreateExtension { name: Ident::new("ltree") })
    );
    assert_eq!(extension_from_row(None), Err(SourceError::NoStringValue));

    assert_eq!(
        pg_extensions(&vec![text("plpgsql"), text("\"uuid-ossp\"")]),
        Ok(vec![
            Wrapped::CreateExtension { name: Ident::new("plpgsql") },
            Wrapped::CreateExtension { name: Ident::with_quote('"', "uuid-ossp") },
        ])
    );
    assert_eq!(pg_extensions(&vec![text("ltree"), None]), Err(SourceError::NoStringValue));
}

#[test]
fn constraint_sql_joins_name_and_definition() {
    assert_eq!(
        constraint_sql("fk_id", "FOREIGN KEY (id) REFERENCES items(id)"),
        "CONSTRAINT fk_id FOREIGN KEY (id) REFERENCES items(id)"
    );
    assert_eq!(constraint_sql("", ""), "CONSTRAINT  ");
}

#[test]
fn put_table_replaces_a_table_of_the_same_name() {
    let id = ColumnDef { name: Ident::new("id"), data_type: DataType::new("INT"), options: vec![] };
    let mut tables = vec![];

    put_table(&mut tables, named_table("a", vec![]));
    put_table(&mut tables, named_table("b", vec![]));
    assert_eq!(tables, vec![named_table("a", vec![]), named_table("b", vec![])]);

    put_table(&mut tables, named_table("a", vec![id.clone()]));
    assert_eq!(tables, vec![named_table("a", vec![id]), named_table("b", vec![])]);
}

#[test]
fn catalog_lists_tables_then_indexes_then_extensions() {
    let extension = Wrapped::CreateExtension { name: Ident::new("ltree") };
    let other = Wrapped::CreateExtension { name: Ident::new("hstore") };

    let objects = catalog(
        vec![named_table("a", vec![]), named_table("b", vec![])],
        vec![other.clone()],
        vec![extension.clone()],
    );

    assert_eq!(
        objects,
        vec![
            Wrapped::CreateTable(named_table("a", vec![])),
            Wrapped::CreateTable(named_table("b", vec![])),
            other,
            extension,
        ]
    );
    assert_eq!(catalog(vec![], vec![], vec![]), vec![]);
}

#[test]
fn parse_outcome_keeps_the_value_and_wraps_the_message() {
    assert_eq!(parse_outcome(Ok(Ident::new("a"))), Ok(Ident::new("a")));
    assert_eq!(
        parse_outcome::<Ident>(Err("no identifier".to_string())),
        Err(SourceError::Parse("no identifier".to_string()))
    );
}

#[test]
fn column_from_parts_orders_options_and_failures() {
    let no = Some("NO".to_string());
    let name = || Ok(Ident::new("id"));
    let data_type = || Ok(DataType::new("UUID"));
    let failure = |m: &str| SourceError::Parse(m.to_string());

    assert_eq!(
        column_from_parts(name(), data_type(), &no, Ok(Expr::new("1"))),
        Ok(ColumnDef {
            name: Ident::new("id"),
            data_type: DataType::new("UUID"),
            options: vec![ColumnOption::NotNull, ColumnOption::Default(Expr::new("1"))],
        })
    );
    assert_eq!(
        column_from_parts(name(), data_type(), &None, Err(SourceError::NoExprValue)),
        Ok(ColumnDef { name: Ident::new("id"), data_type: DataType::new("UUID"), options: vec![] })
    );
    assert_eq!(
        column_from_parts(Err(failure("name")), Err(failure("type")), &no, Err(failure("default"))),
        Err(failure("name"))
    );
    assert_eq!(
        column_from_parts(name(), Err(failure("type")), &no, Err(failure("default"))),
        Err(failure("type"))
    );
}

#[test]
fn extension_from_wraps_the_name() {
    assert_eq!(
        extension_from(Ok(Ident::new("ltree"))),
        Ok(Wrapped::CreateExtension { name: Ident::new("ltree") })
    );
    assert_eq!(extension_from(Err(SourceError::NoStringValue)), Err(SourceError::NoStringValue));
}

#[test]
fn gather_gives_all_values_or_the_first_failure() {
    assert_eq!(gather::<Ident, SourceError>(vec![]), Ok(vec![]));
    assert_eq!(
        gather::<Ident, SourceError>(vec![
            Ok(Ident::new("a")),
            Ok(Ident::new("b")),
            Ok(Ident::new("c")),
        ]),
        Ok(vec![Ident::new("a"), Ident::new("b"), Ident::new("c")])
    );
    assert_eq!(
        gather(vec![
            Ok(Ident::new("a")),
            Err(SourceError::NoExprValue),
            Ok(Ident::new("c")),
            Err(SourceError::NoStringValue),
        ]),
        Err(SourceError::NoExprValue)
    );
}
