use declare_schema::altertable::{from_to, is_well_formed, Identity, ObjectKind, Wrapped};
use declare_schema::column::{ColumnDef, ColumnOption, DataType, Expr};
use declare_schema::column_diff::compare_column;
use declare_schema::constraint::TableConstraint;
use declare_schema::constraint_diff::compare_constraints;
use declare_schema::index::{IndexColumn, IndexDef};
use declare_schema::name::{Ident, ObjectName};
use declare_schema::plan::{AlterOp, Operation};
use declare_schema::schema::{declared_objects, generate_migrations, Statement};
use declare_schema::table::TableDef;
use declare_schema::table_diff::{compare_columns, from_to_table};
use declare_schema::MigrationError;
use sqlparser::ast;

fn ident(i: &ast::Ident) -> Ident {
    Ident { value: i.value.clone(), quote_style: i.quote_style }
}

fn idents(v: &[ast::Ident]) -> Vec<Ident> {
    v.iter().map(ident).collect()
}

fn object_name(n: &ast::ObjectName) -> ObjectName {
    ObjectName {
        parts: n
            .0
            .iter()
            .map(|part| match part {
                ast::ObjectNamePart::Identifier(i) => ident(i),
            })
            .collect(),
    }
}

fn expr(e: &ast::Expr) -> Expr {
    Expr { sql: e.to_string() }
}

fn column_option(o: &ast::ColumnOptionDef) -> ColumnOption {
    match &o.option {
        ast::ColumnOption::NotNull => ColumnOption::NotNull,
        ast::ColumnOption::Default(e) => ColumnOption::Default(expr(e)),
        _ => ColumnOption::Other(o.to_string()),
    }
}

fn column(c: &ast::ColumnDef) -> ColumnDef {
    ColumnDef {
        name: ident(&c.name),
        data_type: DataType { sql: c.data_type.to_string() },
        options: c.options.iter().map(column_option).collect(),
    }
}

fn constraint(c: &ast::TableConstraint) -> TableConstraint {
    match c {
        ast::TableConstraint::PrimaryKey { name, columns, .. } => {
            TableConstraint::PrimaryKey { name: name.as_ref().map(ident), columns: idents(columns) }
        }
        ast::TableConstraint::ForeignKey {
            name, columns, foreign_table, referred_columns, ..
        } => TableConstraint::ForeignKey {
            name: name.as_ref().map(ident),
            columns: idents(columns),
            foreign_table: object_name(foreign_table),
            referred_columns: idents(referred_columns),
        },
        ast::TableConstraint::Unique { name, columns, .. } => {
            TableConstraint::Unique { name: name.as_ref().map(ident), columns: idents(columns) }
        }
        ast::TableConstraint::Check { name, expr: e, .. } => {
            TableConstraint::Check { name: name.as_ref().map(ident), expr: expr(e) }
        }
        other => TableConstraint::Other(other.to_string()),
    }
}

fn table(ct: &ast::CreateTable) -> TableDef {
    TableDef {
        name: object_name(&ct.name),
        columns: ct.columns.iter().map(column).collect(),
        constraints: ct.constraints.iter().map(constraint).collect(),
    }
}

fn index(ci: &ast::CreateIndex) -> IndexDef {
    IndexDef {
        name: ci.name.as_ref().map(object_name),
        table_name: object_name(&ci.table_name),
        using: ci.using.as_ref().map(|u| u.to_string()),
        columns: ci
            .columns
            .iter()
            .map(|c| IndexColumn { expr: expr(&c.column.expr), asc: c.column.options.asc })
            .collect(),
        unique: ci.unique,
    }
}

fn alter_op(op: &ast::AlterTableOperation) -> AlterOp {
    match op {
        ast::AlterTableOperation::AddColumn { column_def, .. } => {
            AlterOp::AddColumn(column(column_def))
        }
        ast::AlterTableOperation::DropColumn { column_name, drop_behavior, .. } => {
            AlterOp::DropColumn {
                name: ident(column_name),
                cascade: matches!(drop_behavior, Some(ast::DropBehavior::Cascade)),
            }
        }
        ast::AlterTableOperation::AlterColumn { column_name, op } => match op {
            ast::AlterColumnOperation::SetNotNull => {
                AlterOp::SetNotNull { column: ident(column_name) }
            }
            ast::AlterColumnOperation::DropNotNull => {
                AlterOp::DropNotNull { column: ident(column_name) }
            }
            ast::AlterColumnOperation::SetDefault { value } => {
                AlterOp::SetDefault { column: ident(column_name), value: expr(value) }
            }
            ast::AlterColumnOperation::DropDefault => {
                AlterOp::DropDefault { column: ident(column_name) }
            }
            other => panic!("Unexpected column operation {other}"),
        },
        ast::AlterTableOperation::AddConstraint(c) => AlterOp::AddConstraint(constraint(c)),
        ast::AlterTableOperation::DropConstraint { name, drop_behavior, .. } => {
            AlterOp::DropConstraint {
                name: ident(name),
                cascade: matches!(drop_behavior, Some(ast::DropBehavior::Cascade)),
            }
        }
        other => panic!("Unexpected table operation {other}"),
    }
}

fn operation(s: &ast::Statement) -> Operation {
    match s {
        ast::Statement::CreateTable(ct) => Operation::CreateTable(table(ct)),
        ast::Statement::CreateIndex(ci) => Operation::CreateIndex(index(ci)),
        ast::Statement::CreateExtension { name, .. } => {
            Operation::CreateExtension { name: ident(name) }
        }
        ast::Statement::AlterTable { name, operations, .. } => {
            assert_eq!(operations.len(), 1);
            Operation::AlterTable { name: object_name(name), op: alter_op(&operations[0]) }
        }
        ast::Statement::Drop { object_type, names, cascade, .. } => {
            assert_eq!(names.len(), 1);
            match object_type {
                ast::ObjectType::Table => {
                    Operation::DropTable { name: object_name(&names[0]), cascade: *cascade }
                }
                ast::ObjectType::Index => {
                    Operation::DropIndex { name: object_name(&names[0]), cascade: *cascade }
                }
                other => panic!("Unexpected drop of {other}"),
            }
        }
        other => panic!("Unexpected statement {other}"),
    }
}

fn parse(s: &str) -> ast::Statement {
    let dialect = sqlparser::dialect::PostgreSqlDialect {};
    let parser = sqlparser::parser::Parser::new(&dialect);
    let mut parser = parser.try_with_sql(s).expect("SQL");
    parser.parse_statement().expect("Not valid sql")
}

fn str_to_statement(s: &str) -> Operation {
    operation(&parse(s))
}

fn statement(s: &str) -> Statement {
    match parse(s) {
        ast::Statement::CreateTable(ct) => Statement::CreateTable(table(&ct)),
        ast::Statement::CreateIndex(ci) => Statement::CreateIndex(index(&ci)),
        ast::Statement::CreateExtension { name, .. } => {
            Statement::CreateExtension { name: ident(&name) }
        }
        other => Statement::Other(other.to_string()),
    }
}

fn str_to_wrapped(s: &str) -> Wrapped {
    match Wrapped::try_from(statement(s)) {
        Ok(w) => w,
        Err(_) => panic!("Expected a CREATE TABLE statement"),
    }
}

fn str_to_create_table(s: &str) -> TableDef {
    match parse(s) {
        ast::Statement::CreateTable(ct) => table(&ct),
        _ => panic!("Expected a CREATE TABLE statement"),
    }
}

fn schema(statements: &[&str]) -> Vec<Wrapped> {
    statements.iter().map(|s| str_to_wrapped(s)).collect()
}

#[test]
fn test_add_column() {
    let empty_table = str_to_create_table(r#"CREATE TABLE "test" ()"#);
    let target = str_to_create_table(r#"CREATE TABLE "test" (id uuid)"#);

    let r = from_to_table(&empty_table, &target).expect("works");

    let alter = vec![str_to_statement(r#"ALTER TABLE "test" ADD COLUMN id uuid"#)];

    assert_eq!(r, alter);
}

#[test]
fn test_remove_column() {
    let start = str_to_create_table(r#"CREATE TABLE "test" (id uuid)"#);
    let target = str_to_create_table(r#"CREATE TABLE "test" ()"#);

    let r = from_to_table(&start, &target).expect("works");

    let alter = vec![str_to_statement(r#"ALTER TABLE "test" DROP COLUMN id CASCADE"#)];

    assert_eq!(r, alter);
}

#[test]
fn test_alter_column_not_null() {
    let empty_table = str_to_create_table(r#"CREATE TABLE "test" (id uuid)"#);
    let target = str_to_create_table(r#"CREATE TABLE "test" (id uuid NOT NULL)"#);

    let r = from_to_table(&empty_table, &target).expect("works");

    let alter = vec![str_to_statement(r#"ALTER TABLE "test" ALTER COLUMN id SET NOT NULL"#)];

    assert_eq!(r, alter);
}

#[test]
fn test_alter_column_drop_not_null() {
    let empty_table = str_to_create_table(r#"CREATE TABLE "test" (id uuid NOT NULL)"#);
    let target = str_to_create_table(r#"CREATE TABLE "test" (id uuid)"#);

    let r = from_to_table(&empty_table, &target).expect("works");

    let alter = vec![str_to_statement(r#"ALTER TABLE "test" ALTER COLUMN id DROP NOT NULL"#)];

    assert_eq!(r, alter);
}

#[test]
fn test_alter_column_set_default() {
    let empty_table = str_to_create_table(r#"CREATE TABLE "test" (name varchar)"#);
    let target = str_to_create_table(r#"CREATE TABLE "test" (name varchar DEFAULT 'foo')"#);

    let r = from_to_table(&empty_table, &target).expect("works");

    let alter =
        vec![str_to_statement(r#"ALTER TABLE "test" ALTER COLUMN name SET DEFAULT 'foo'"#)];

    assert_eq!(r, alter);
}

#[test]
fn test_alter_column_set_new_default() {
    let empty_table = str_to_create_table(r#"CREATE TABLE "test" (name varchar DEFAULT 'foo')"#);
    let target = str_to_create_table(r#"CREATE TABLE "test" (name varchar DEFAULT 'bar')"#);

    let r = from_to_table(&empty_table, &target).expect("works");

    let alter =
        vec![str_to_statement(r#"ALTER TABLE "test" ALTER COLUMN name SET DEFAULT 'bar'"#)];

    assert_eq!(r, alter);
}

#[test]
fn test_alter_column_drop_default() {
    let empty_table = str_to_create_table(r#"CREATE TABLE "test" (name varchar DEFAULT 'foo')"#);
    let target = str_to_create_table(r#"CREATE TABLE "test" (name varchar )"#);

    let r = from_to_table(&empty_table, &target).expect("works");

    let alter = vec![str_to_statement(r#"ALTER TABLE "test" ALTER COLUMN name DROP DEFAULT"#)];

    assert_eq!(r, alter);
}

#[test]
fn test_add_table() {
    let empty = vec![];
    let target = vec![str_to_wrapped(r#"CREATE TABLE "test" (id uuid)"#)];

    let r = from_to(empty, target).expect("works");

    let alter = vec![str_to_statement(r#"CREATE TABLE "test" (id uuid)"#)];

    assert_eq!(r, alter);
}

#[test]
fn test_drop_table() {
    let target = vec![];
    let start = vec![str_to_wrapped(r#"CREATE TABLE "test" (id uuid)"#)];

    let r = from_to(start, target).expect("works");

    let alter = vec![str_to_statement(r#"DROP TABLE "test" CASCADE"#)];

    assert_eq!(r, alter);
}

#[test]
fn test_add_primary_key_constraint() {
    let start = str_to_create_table(r#"CREATE TABLE "test" (id uuid)"#);
    let target = str_to_create_table(r#"CREATE TABLE "test" (id uuid, PRIMARY KEY(id))"#);

    let r = from_to_table(&start, &target).expect("works");

    let alter = vec![str_to_statement(r#"ALTER TABLE "test" ADD PRIMARY KEY(id)"#)];

    assert_eq!(r, alter);
}

#[test]
fn test_add_foreign_key_constraint() {
    let start = str_to_create_table(r#"CREATE TABLE "test" (id uuid)"#);
    let target = str_to_create_table(
        r#"CREATE TABLE "test" (id uuid, CONSTRAINT fk_id FOREIGN KEY(id) REFERENCES items(id))"#,
    );

    let r = from_to_table(&start, &target).expect("works");

    let alter = vec![str_to_statement(
        r#"ALTER TABLE "test" ADD CONSTRAINT fk_id FOREIGN KEY(id) REFERENCES items(id)"#,
    )];

    assert_eq!(r, alter);
}

#[test]
fn test_drop_foreign_key_constraint() {
    let start = str_to_create_table(
        r#"CREATE TABLE "test" (id uuid, CONSTRAINT fk_id FOREIGN KEY(id) REFERENCES items(id))"#,
    );
    let target = str_to_create_table(r#"CREATE TABLE "test" (id uuid)"#);

    let r = from_to_table(&start, &target).expect("works");

    let alter = vec![str_to_statement(r#"ALTER TABLE "test" DROP CONSTRAINT fk_id CASCADE"#)];

    assert_eq!(r, alter);
}

#[test]
fn test_add_check_constraint() {
    let start = str_to_create_table(r#"CREATE TABLE "test" (id uuid)"#);
    let target = str_to_create_table(
        r#"CREATE TABLE "test" (id uuid, CONSTRAINT check_id CHECK (id = 1))"#,
    );

    let r = from_to_table(&start, &target).expect("works");

    let alter =
        vec![str_to_statement(r#"ALTER TABLE "test" ADD CONSTRAINT check_id CHECK (id = 1)"#)];

    assert_eq!(r, alter);
}

#[test]
fn test_drop_check_constraint() {
    let start = str_to_create_table(
        r#"CREATE TABLE "test" (id uuid, CONSTRAINT check_id CHECK (id = 1))"#,
    );
    let target = str_to_create_table(r#"CREATE TABLE "test" (id uuid)"#);

    let r = from_to_table(&start, &target).expect("works");

    let alter = vec![str_to_statement(r#"ALTER TABLE "test" DROP CONSTRAINT check_id CASCADE"#)];

    assert_eq!(r, alter);
}

#[test]
fn test_add_unique_constraint() {
    let start = str_to_create_table(r#"CREATE TABLE "test" (id uuid)"#);
    let target =
        str_to_create_table(r#"CREATE TABLE "test" (id uuid, CONSTRAINT id_u UNIQUE (id))"#);

    let r = from_to_table(&start, &target).expect("works");

    let alter = vec![str_to_statement(r#"ALTER TABLE "test" ADD CONSTRAINT id_u UNIQUE (id)"#)];

    assert_eq!(r, alter);
}

#[test]
fn test_drop_unique_constraint() {
    let start =
        str_to_create_table(r#"CREATE TABLE "test" (id uuid, CONSTRAINT id_u UNIQUE (id))"#);
    let target = str_to_create_table(r#"CREATE TABLE "test" (id uuid)"#);

    let r = from_to_table(&start, &target).expect("works");

    let alter = vec![str_to_statement(r#"ALTER TABLE "test" DROP CONSTRAINT id_u CASCADE"#)];

    assert_eq!(r, alter);
}

#[test]
fn test_add_index() {
    let start = vec![];
    let target = vec![str_to_wrapped(r#"CREATE INDEX idx_id on test (id)"#)];

    let r = from_to(start, target).expect("works");

    let alter = vec![str_to_statement(r#"CREATE INDEX idx_id on test (id)"#)];

    assert_eq!(r, alter);
}

#[test]
fn test_add_index_compare() {
    let named_index = str_to_wrapped(r#"CREATE INDEX idx_id on test (id)"#);
    let unnamed_index = str_to_wrapped(r#"CREATE INDEX on test (id)"#);

    // One name and one missing name shouldn't match
    let matched = Wrapped::name_and_type_equals(&named_index, &unnamed_index);
    assert!(!matched);

    // Unnamed items shouldn't match
    let matched = Wrapped::name_and_type_equals(&unnamed_index, &unnamed_index);
    assert!(!matched);
}

#[test]
fn test_create_extension() {
    let start = vec![];
    let target = vec![str_to_wrapped(r#"CREATE EXTENSION ltree"#)];

    let r = from_to(start, target).expect("works");

    let alter = vec![str_to_statement(r#"CREATE EXTENSION ltree"#)];

    assert_eq!(r, alter);
}

#[test]
fn test_same_foreign_key_constraint() {
    let sql = [
        r#"CREATE TABLE items (id uuid NOT NULL, PRIMARY KEY(id))"#,
        r#"CREATE TABLE test (id uuid, CONSTRAINT fk_id FOREIGN KEY(id) REFERENCES items(id))"#,
    ];

    let m = from_to(schema(&sql), schema(&sql)).expect("Migrate");

    let alter: Vec<Operation> = vec![];

    assert_eq!(m, alter);
}

#[test]
fn test_modify_foreign_key_constraint() {
    let items = r#"CREATE TABLE items (id uuid NOT NULL, id2 uuid NOT NULL, PRIMARY KEY(id))"#;
    let start = schema(&[
        items,
        r#"CREATE TABLE test (id uuid, CONSTRAINT fk_id FOREIGN KEY(id) REFERENCES items(id))"#,
    ]);
    let target = schema(&[
        items,
        r#"CREATE TABLE test (id uuid, CONSTRAINT fk_id FOREIGN KEY(id) REFERENCES items(id2))"#,
    ]);

    let maybe_err = from_to(start, target);

    match maybe_err {
        Err(MigrationError::CannotModifyTableConstraint(from, to)) => {
            assert_eq!(
                from,
                constraint_of("CONSTRAINT fk_id FOREIGN KEY(id) REFERENCES items(id)")
            );
            assert_eq!(
                to,
                constraint_of("CONSTRAINT fk_id FOREIGN KEY(id) REFERENCES items(id2)")
            );
        }
        _ => panic!("Not the right error {maybe_err:?}"),
    }
}

fn constraint_of(sql: &str) -> TableConstraint {
    let dialect = sqlparser::dialect::PostgreSqlDialect {};
    let parser = sqlparser::parser::Parser::new(&dialect);
    let mut parser = parser.try_with_sql(sql).expect("SQL");
    constraint(&parser.parse_optional_table_constraint().expect("constraint").expect("some"))
}

#[test]
fn test_same_check_constraint() {
    let sql = [r#"CREATE TABLE test (id int, CONSTRAINT check_id CHECK (id = 1))"#];

    let m = from_to(schema(&sql), schema(&sql)).expect("Migrate");

    let alter: Vec<Operation> = vec![];

    assert_eq!(m, alter);
}

#[test]
fn test_modify_check_constraint() {
    let start = schema(&[r#"CREATE TABLE test (id int, CONSTRAINT check_id CHECK (id = 1))"#]);
    let target = schema(&[r#"CREATE TABLE test (id int, CONSTRAINT check_id CHECK (id = 2))"#]);

    let maybe_err = from_to(start, target);

    match maybe_err {
        Err(MigrationError::CannotModifyTableConstraint(_, _)) => (),
        _ => panic!("Not the right error {maybe_err:?}"),
    }
}

#[test]
fn test_add_index_without_name() {
    let start = schema(&[
        r#"CREATE TABLE test (id uuid NOT NULL)"#,
        r#"CREATE INDEX idx_id on test (id)"#,
    ]);
    let target =
        schema(&[r#"CREATE TABLE test (id uuid)"#, r#"CREATE INDEX on public.test (id)"#]);

    let maybe_err = from_to(start, target);

    match maybe_err {
        Err(MigrationError::UnnamedObject(w)) => {
            assert_eq!(w, str_to_wrapped(r#"CREATE INDEX on public.test (id)"#));
        }
        _ => panic!("Not the right error {maybe_err:?}"),
    }
}

#[test]
fn test_unchanged_index() {
    let start = schema(&[
        r#"CREATE TABLE test (id uuid)"#,
        r#"CREATE INDEX idx_id ON public.test USING btree (id)"#,
    ]);
    let target = schema(&[
        r#"CREATE TABLE test (id uuid)"#,
        r#"CREATE INDEX idx_id on public.test USING btree (id)"#,
    ]);

    let m = from_to(start, target).expect("Migrate");

    let alter: Vec<Operation> = vec![];

    assert_eq!(m, alter);
}

#[test]
fn test_unchanged_unique_index() {
    let start = schema(&[
        r#"CREATE TABLE test (id uuid, name text)"#,
        r#"CREATE UNIQUE INDEX idx_id ON public.test USING btree (id, name)"#,
    ]);
    let target = schema(&[
        r#"CREATE TABLE test (id uuid, name text)"#,
        r#"CREATE UNIQUE INDEX idx_id on public.test USING BTREE (id, name)"#,
    ]);

    let m = from_to(start, target).expect("Migrate");

    let alter: Vec<Operation> = vec![];

    assert_eq!(m, alter);
}

#[test]
fn test_changed_index() {
    let start = schema(&[
        r#"CREATE TABLE test (id uuid)"#,
        r#"CREATE INDEX idx_id ON public.test USING btree (id)"#,
    ]);
    let target = schema(&[
        r#"CREATE TABLE test (id uuid)"#,
        r#"CREATE INDEX idx_id on public.test USING BTREE (id DESC)"#,
    ]);

    let maybe_err = from_to(start, target);

    match maybe_err {
        Err(MigrationError::CannotModifyIndex(_, _)) => (),
        _ => panic!("Not the right error {maybe_err:?}"),
    }
}

#[test]
fn changed_index_column_order_is_refused() {
    let start = schema(&[r#"CREATE INDEX idx ON test (id, name)"#]);
    let target = schema(&[r#"CREATE INDEX idx ON test (name, id)"#]);

    match from_to(start, target) {
        Err(MigrationError::CannotModifyIndex(from, to)) => {
            assert_eq!(Wrapped::CreateIndex(from), str_to_wrapped("CREATE INDEX idx ON test (id, name)"));
            assert_eq!(Wrapped::CreateIndex(to), str_to_wrapped("CREATE INDEX idx ON test (name, id)"));
        }
        other => panic!("Not the right error {other:?}"),
    }
}

#[test]
fn plan_of_a_schema_to_itself_is_empty() {
    let sql = [
        r#"CREATE EXTENSION ltree"#,
        r#"CREATE TABLE items (id uuid NOT NULL DEFAULT gen_random_uuid(), name text, PRIMARY KEY(id), CONSTRAINT name_u UNIQUE (name))"#,
        r#"CREATE TABLE test (id uuid, n int DEFAULT 1, CONSTRAINT fk_id FOREIGN KEY(id) REFERENCES items(id), CONSTRAINT n_pos CHECK (n > 0))"#,
        r#"CREATE INDEX idx_n ON test (n DESC)"#,
        r#"CREATE UNIQUE INDEX idx_name ON items USING hash (name)"#,
    ];

    assert_eq!(from_to(schema(&sql), schema(&sql)), Ok(vec![]));
}

#[test]
fn extension_is_never_dropped() {
    let start = schema(&[r#"CREATE EXTENSION ltree"#]);

    assert_eq!(from_to(start, vec![]), Ok(vec![]));
}

#[test]
fn existing_extension_is_not_created_again() {
    let start = schema(&[r#"CREATE EXTENSION ltree"#]);
    let target = schema(&[r#"CREATE EXTENSION ltree"#, r#"CREATE EXTENSION hstore"#]);

    let alter = vec![str_to_statement(r#"CREATE EXTENSION hstore"#)];

    assert_eq!(from_to(start, target), Ok(alter));
}

#[test]
fn unnamed_target_fails_whatever_the_current_state() {
    let unnamed = r#"CREATE INDEX on test (id)"#;
    for start in [
        schema(&[]),
        schema(&[unnamed]),
        schema(&[r#"CREATE TABLE test (id uuid)"#, r#"CREATE INDEX idx_id on test (id)"#]),
    ] {
        let target = schema(&[r#"CREATE TABLE test (id uuid)"#, unnamed]);
        assert_eq!(from_to(start, target), Err(MigrationError::UnnamedObject(str_to_wrapped(unnamed))));
    }
}

#[test]
fn the_first_refused_target_decides() {
    let start = schema(&[r#"CREATE TABLE test (id int, CONSTRAINT c CHECK (id = 1))"#]);
    let target = schema(&[
        r#"CREATE TABLE test (id int, CONSTRAINT c CHECK (id = 2))"#,
        r#"CREATE INDEX on test (id)"#,
    ]);

    match from_to(start, target) {
        Err(MigrationError::CannotModifyTableConstraint(_, _)) => (),
        other => panic!("Not the right error {other:?}"),
    }
}

#[test]
fn creates_come_before_drops_in_input_order() {
    let start = schema(&[
        r#"CREATE TABLE old_a (id int)"#,
        r#"CREATE TABLE kept (id int)"#,
        r#"CREATE INDEX old_idx ON kept (id)"#,
        r#"CREATE INDEX ON kept (id)"#,
        r#"CREATE TABLE old_b (id int)"#,
    ]);
    let target = schema(&[
        r#"CREATE TABLE new_a (id int)"#,
        r#"CREATE TABLE kept (id int, name text)"#,
        r#"CREATE INDEX new_idx ON kept (name)"#,
    ]);

    let r = from_to(start, target).expect("works");

    let plan = vec![
        str_to_statement(r#"CREATE TABLE new_a (id int)"#),
        str_to_statement(r#"ALTER TABLE kept ADD COLUMN name text"#),
        str_to_statement(r#"CREATE INDEX new_idx ON kept (name)"#),
        str_to_statement(r#"DROP TABLE old_a CASCADE"#),
        str_to_statement(r#"DROP INDEX old_idx CASCADE"#),
        str_to_statement(r#"DROP TABLE old_b CASCADE"#),
    ];

    assert_eq!(r, plan);
}

#[test]
fn objects_of_one_name_and_different_kinds_do_not_match() {
    let start = schema(&[r#"CREATE TABLE thing (id int)"#]);
    let target = schema(&[r#"CREATE INDEX thing ON other (id)"#, r#"CREATE EXTENSION thing"#]);

    let r = from_to(start, target).expect("works");

    let plan = vec![
        str_to_statement(r#"CREATE INDEX thing ON other (id)"#),
        str_to_statement(r#"CREATE EXTENSION thing"#),
        str_to_statement(r#"DROP TABLE thing CASCADE"#),
    ];

    assert_eq!(r, plan);
}

#[test]
fn the_first_current_object_that_matches_is_compared() {
    let start =
        schema(&[r#"CREATE TABLE test (id int)"#, r#"CREATE TABLE test (id int, name text)"#]);
    let target = schema(&[r#"CREATE TABLE test (id int, name text)"#]);

    let r = from_to(start, target).expect("works");

    assert_eq!(r, vec![str_to_statement(r#"ALTER TABLE test ADD COLUMN name text"#)]);
}

#[test]
fn tables_of_different_names_are_refused() {
    let a = str_to_create_table(r#"CREATE TABLE a (id int)"#);
    let b = str_to_create_table(r#"CREATE TABLE b (id int)"#);

    assert_eq!(
        from_to_table(&a, &b),
        Err(MigrationError::TablesNotMatching(
            str_to_create_table(r#"CREATE TABLE a (id int)"#),
            str_to_create_table(r#"CREATE TABLE b (id int)"#),
        ))
    );
}

#[test]
fn quoted_and_unquoted_names_differ() {
    let a = str_to_create_table(r#"CREATE TABLE "test" (id int)"#);
    let b = str_to_create_table(r#"CREATE TABLE test (id int)"#);

    assert!(matches!(from_to_table(&a, &b), Err(MigrationError::TablesNotMatching(_, _))));
}

#[test]
fn column_operations_come_before_constraint_operations() {
    let start = str_to_create_table(
        r#"CREATE TABLE test (old int, kept int NOT NULL DEFAULT 1, CONSTRAINT gone UNIQUE (old))"#,
    );
    let target = str_to_create_table(
        r#"CREATE TABLE test (kept int DEFAULT 2, new text NOT NULL, PRIMARY KEY (kept), CONSTRAINT pos CHECK (kept > 0))"#,
    );

    let r = from_to_table(&start, &target).expect("works");

    let plan = vec![
        str_to_statement(r#"ALTER TABLE test DROP COLUMN old CASCADE"#),
        str_to_statement(r#"ALTER TABLE test ALTER COLUMN kept SET DEFAULT 2"#),
        str_to_statement(r#"ALTER TABLE test ALTER COLUMN kept DROP NOT NULL"#),
        str_to_statement(r#"ALTER TABLE test ADD COLUMN new text NOT NULL"#),
        str_to_statement(r#"ALTER TABLE test ADD PRIMARY KEY (kept)"#),
        str_to_statement(r#"ALTER TABLE test ADD CONSTRAINT pos CHECK (kept > 0)"#),
        str_to_statement(r#"ALTER TABLE test DROP CONSTRAINT gone CASCADE"#),
    ];

    assert_eq!(r, plan);
}

#[test]
fn equal_defaults_need_no_operation() {
    let start = str_to_create_table(r#"CREATE TABLE test (n int DEFAULT 1+1)"#);
    let target = str_to_create_table(r#"CREATE TABLE test (n int DEFAULT 1 + 1)"#);

    assert_eq!(from_to_table(&start, &target), Ok(vec![]));
}

#[test]
fn defaults_are_compared_by_structure_not_by_meaning() {
    let start = str_to_create_table(r#"CREATE TABLE test (n int DEFAULT 2)"#);
    let target = str_to_create_table(r#"CREATE TABLE test (n int DEFAULT 1 + 1)"#);

    let r = from_to_table(&start, &target).expect("works");

    assert_eq!(r, vec![str_to_statement(r#"ALTER TABLE test ALTER COLUMN n SET DEFAULT 1 + 1"#)]);
}

#[test]
fn other_column_options_are_passed_over() {
    let start = str_to_create_table(r#"CREATE TABLE test (n int UNIQUE)"#);
    let target = str_to_create_table(r#"CREATE TABLE test (n int NULL CHECK (n > 0))"#);

    assert_eq!(from_to_table(&start, &target), Ok(vec![]));
}

#[test]
fn a_changed_column_type_is_not_an_operation() {
    let start = str_to_create_table(r#"CREATE TABLE test (n int)"#);
    let target = str_to_create_table(r#"CREATE TABLE test (n text)"#);

    assert_eq!(from_to_table(&start, &target), Ok(vec![]));
}

#[test]
fn compare_column_uses_the_target_name() {
    let from = ColumnDef {
        name: Ident::new("a"),
        data_type: DataType::new("INT"),
        options: vec![ColumnOption::NotNull, ColumnOption::Default(Expr::new("1"))],
    };
    let to = ColumnDef { name: Ident::new("b"), data_type: DataType::new("INT"), options: vec![] };

    assert_eq!(
        compare_column(&from, &to),
        vec![
            AlterOp::DropNotNull { column: Ident::new("b") },
            AlterOp::DropDefault { column: Ident::new("b") },
        ]
    );
    assert_eq!(
        compare_column(&to, &from),
        vec![
            AlterOp::SetNotNull { column: Ident::new("a") },
            AlterOp::SetDefault { column: Ident::new("a"), value: Expr::new("1") },
        ]
    );
}

#[test]
fn compare_columns_drops_then_adds() {
    let a = ColumnDef { name: Ident::new("a"), data_type: DataType::new("INT"), options: vec![] };
    let b = ColumnDef { name: Ident::new("b"), data_type: DataType::new("TEXT"), options: vec![] };

    assert_eq!(
        compare_columns(&vec![a.clone()], &vec![b.clone()]),
        vec![
            AlterOp::DropColumn { name: Ident::new("a"), cascade: true },
            AlterOp::AddColumn(b.clone()),
        ]
    );
    assert_eq!(compare_columns(&vec![a.clone(), b.clone()], &vec![b, a]), vec![]);
}

#[test]
fn primary_key_is_never_dropped_nor_changed() {
    let with_pk = str_to_create_table(r#"CREATE TABLE test (a int, b int, PRIMARY KEY (a))"#);
    let without = str_to_create_table(r#"CREATE TABLE test (a int, b int)"#);
    let other_pk = str_to_create_table(r#"CREATE TABLE test (a int, b int, PRIMARY KEY (b))"#);

    assert_eq!(from_to_table(&with_pk, &without), Ok(vec![]));
    assert_eq!(from_to_table(&with_pk, &other_pk), Ok(vec![]));
}

#[test]
fn changed_unique_constraint_is_refused() {
    let start = str_to_create_table(r#"CREATE TABLE test (a int, b int, CONSTRAINT u UNIQUE (a))"#);
    let target =
        str_to_create_table(r#"CREATE TABLE test (a int, b int, CONSTRAINT u UNIQUE (a, b))"#);

    assert_eq!(
        from_to_table(&start, &target),
        Err(MigrationError::CannotModifyTableConstraint(
            constraint_of("CONSTRAINT u UNIQUE (a)"),
            constraint_of("CONSTRAINT u UNIQUE (a, b)"),
        ))
    );
}

#[test]
fn constraints_of_one_name_and_different_kinds_do_not_match() {
    let start = str_to_create_table(r#"CREATE TABLE test (a int, CONSTRAINT c UNIQUE (a))"#);
    let target = str_to_create_table(r#"CREATE TABLE test (a int, CONSTRAINT c CHECK (a > 0))"#);

    let r = from_to_table(&start, &target).expect("works");

    let plan = vec![
        str_to_statement(r#"ALTER TABLE test ADD CONSTRAINT c CHECK (a > 0)"#),
        str_to_statement(r#"ALTER TABLE test DROP CONSTRAINT c CASCADE"#),
    ];

    assert_eq!(r, plan);
}

#[test]
fn unnamed_constraints_of_one_kind_match() {
    let same = vec![constraint_of("CHECK (a > 0)")];
    let other = vec![constraint_of("CHECK (a > 1)")];

    assert_eq!(compare_constraints(&same, &same), Ok(vec![]));
    assert_eq!(
        compare_constraints(&same, &other),
        Err(MigrationError::CannotModifyTableConstraint(
            constraint_of("CHECK (a > 0)"),
            constraint_of("CHECK (a > 1)"),
        ))
    );
}

#[test]
fn unnamed_constraint_without_counterpart_is_left_alone() {
    let from = vec![constraint_of("CHECK (a > 0)")];

    assert_eq!(compare_constraints(&from, &vec![]), Ok(vec![]));
    assert_eq!(
        compare_constraints(&vec![], &from),
        Ok(vec![AlterOp::AddConstraint(constraint_of("CHECK (a > 0)"))])
    );
}

#[test]
fn other_constraint_kinds_are_ignored() {
    let other = vec![TableConstraint::Other("INDEX idx (a)".to_string())];

    assert_eq!(compare_constraints(&other, &vec![]), Ok(vec![]));
    assert_eq!(compare_constraints(&vec![], &other), Ok(vec![]));
}

#[test]
fn identity_is_kind_and_name() {
    let table = str_to_wrapped(r#"CREATE TABLE public.test (id int)"#);
    let index = str_to_wrapped(r#"CREATE INDEX idx ON test (id)"#);
    let unnamed = str_to_wrapped(r#"CREATE INDEX ON test (id)"#);
    let extension = str_to_wrapped(r#"CREATE EXTENSION ltree"#);

    let public_test =
        ObjectName { parts: vec![Ident::new("public"), Ident::new("test")] };
    assert_eq!(table.name(), Some(public_test));
    assert_eq!(index.name(), Some(ObjectName { parts: vec![Ident::new("idx")] }));
    assert_eq!(unnamed.name(), None);
    assert_eq!(extension.name(), Some(ObjectName { parts: vec![Ident::new("ltree")] }));

    assert!(table.name_and_type_equals(&str_to_wrapped(r#"CREATE TABLE public.test ()"#)));
    assert!(!table.name_and_type_equals(&str_to_wrapped(r#"CREATE TABLE test ()"#)));
    assert!(index.name_and_type_equals(&str_to_wrapped(r#"CREATE INDEX idx ON other (x)"#)));
    assert!(extension.name_and_type_equals(&str_to_wrapped(r#"CREATE EXTENSION ltree"#)));
    assert!(!extension.name_and_type_equals(&str_to_wrapped(r#"CREATE INDEX ltree ON t (x)"#)));
}

#[test]
fn identity_holds_kind_and_name() {
    let table = str_to_wrapped(r#"CREATE TABLE test (id int)"#);
    let unnamed = str_to_wrapped(r#"CREATE INDEX ON test (id)"#);
    let extension = str_to_wrapped(r#"CREATE EXTENSION test"#);
    let test = ObjectName { parts: vec![Ident::new("test")] };

    assert_eq!(table.identity(), Identity { kind: ObjectKind::Table, name: Some(test.clone()) });
    assert_eq!(unnamed.identity(), Identity { kind: ObjectKind::Index, name: None });
    assert_eq!(extension.identity(), Identity { kind: ObjectKind::Extension, name: Some(test) });
    assert_ne!(table.identity(), extension.identity());
    assert_eq!(table.kind(), ObjectKind::Table);
}

#[test]
fn same_unique_index_declared_twice_is_a_no_op() {
    let sql = [r#"CREATE UNIQUE INDEX idx_id ON test(id, name)"#];

    assert_eq!(from_to(schema(&sql), schema(&sql)), Ok(vec![]));
}

#[test]
fn table_from_nothing_and_to_nothing() {
    let sql = [r#"CREATE TABLE public.t (id uuid NOT NULL, PRIMARY KEY (id))"#];

    assert_eq!(
        from_to(vec![], schema(&sql)),
        Ok(vec![str_to_statement(r#"CREATE TABLE public.t (id uuid NOT NULL, PRIMARY KEY (id))"#)])
    );
    assert_eq!(
        from_to(schema(&sql), vec![]),
        Ok(vec![str_to_statement(r#"DROP TABLE public.t CASCADE"#)])
    );
    assert_eq!(from_to(vec![], vec![]), Ok(vec![]));
}

#[test]
fn column_is_well_formed_with_at_most_one_of_each_option() {
    let column = |sql: &str| str_to_create_table(sql).columns.remove(0);

    assert!(column("CREATE TABLE t (c int)").is_well_formed());
    assert!(column("CREATE TABLE t (c int NOT NULL DEFAULT 1 UNIQUE CHECK (c > 0) CHECK (c < 9))")
        .is_well_formed());
    assert!(!column("CREATE TABLE t (c int NOT NULL NOT NULL)").is_well_formed());
    assert!(!column("CREATE TABLE t (c int DEFAULT 1 NOT NULL DEFAULT 1)").is_well_formed());
}

#[test]
fn table_is_well_formed_with_distinct_columns_and_constraints() {
    let well_formed = |sql: &str| str_to_create_table(sql).is_well_formed();

    assert!(well_formed("CREATE TABLE t ()"));
    assert!(well_formed(
        "CREATE TABLE t (a int, b int, PRIMARY KEY (a), CONSTRAINT c UNIQUE (a), CONSTRAINT c CHECK (a > 0), UNIQUE (b))"
    ));
    assert!(!well_formed("CREATE TABLE t (a int, b int, a text)"));
    assert!(!well_formed("CREATE TABLE t (a int DEFAULT 1 DEFAULT 2)"));
    assert!(!well_formed("CREATE TABLE t (a int, b int, PRIMARY KEY (a), PRIMARY KEY (b))"));
    assert!(!well_formed(
        "CREATE TABLE t (a int, b int, CONSTRAINT c UNIQUE (a), CONSTRAINT c UNIQUE (b))"
    ));
    assert!(!well_formed("CREATE TABLE t (a int, b int, CHECK (a > 0), CHECK (b > 0))"));
    assert!(well_formed(r#"CREATE TABLE t (a int, "a" int)"#));
}

#[test]
fn objects_are_well_formed_when_named_and_distinct() {
    assert!(is_well_formed(&schema(&[])));
    assert!(is_well_formed(&schema(&[
        "CREATE TABLE t (a int)",
        "CREATE INDEX t ON t (a)",
        "CREATE EXTENSION t",
        "CREATE TABLE public.t (a int)",
    ])));
    assert!(!is_well_formed(&schema(&["CREATE TABLE t (a int)", "CREATE INDEX ON t (a)"])));
    assert!(!is_well_formed(&schema(&["CREATE TABLE t (a int)", "CREATE TABLE t (b int)"])));
    assert!(!is_well_formed(&schema(&["CREATE TABLE t (a int, a int)"])));
    assert!(!is_well_formed(&schema(&["CREATE EXTENSION e", "CREATE TABLE t ()", "CREATE EXTENSION e"])));
}

#[test]
fn plan_of_an_ill_formed_schema_to_itself_need_not_be_empty() {
    let sql = ["CREATE TABLE t (a int DEFAULT 1 DEFAULT 2)"];

    assert!(!is_well_formed(&schema(&sql)));
    assert_eq!(
        from_to(schema(&sql), schema(&sql)),
        Ok(vec![str_to_statement("ALTER TABLE t ALTER COLUMN a SET DEFAULT 2")])
    );
}

#[test]
fn only_tables_indexes_and_extensions_are_declared() {
    assert_eq!(
        Wrapped::try_from(statement("CREATE TABLE t (a int)")),
        Ok(Wrapped::CreateTable(str_to_create_table("CREATE TABLE t (a int)")))
    );
    assert!(matches!(
        Wrapped::try_from(statement("CREATE INDEX i ON t (a)")),
        Ok(Wrapped::CreateIndex(_))
    ));
    assert_eq!(
        Wrapped::try_from(statement("CREATE EXTENSION ltree")),
        Ok(Wrapped::CreateExtension { name: Ident::new("ltree") })
    );
    assert_eq!(
        Wrapped::try_from(statement("drop table t")),
        Err(MigrationError::UnsupportedStatementType("DROP TABLE t".to_string()))
    );
    assert_eq!(
        Wrapped::try_from(Statement::Other("SELECT 1".to_string())),
        Err(MigrationError::UnsupportedStatementType("SELECT 1".to_string()))
    );
}

#[test]
fn declared_objects_keep_order_and_fail_at_the_first_other_statement() {
    let sql = ["CREATE EXTENSION ltree", "CREATE TABLE t (a int)", "CREATE INDEX i ON t (a)"];
    let statements = sql.iter().map(|s| statement(s)).collect();

    assert_eq!(declared_objects(statements), Ok(schema(&sql)));
    assert_eq!(declared_objects(vec![]), Ok(vec![]));
    assert_eq!(
        declared_objects(vec![
            statement("CREATE TABLE t (a int)"),
            statement("SELECT 1"),
            statement("CREATE INDEX ON t (a)"),
            statement("SELECT 2"),
        ]),
        Err(MigrationError::UnsupportedStatementType("SELECT 1".to_string()))
    );
}

#[test]
fn migrations_are_planned_from_statements() {
    let current = schema(&["CREATE TABLE t (a int)", "CREATE TABLE old (a int)"]);
    let statements =
        vec![statement("CREATE TABLE t (a int NOT NULL)"), statement("CREATE EXTENSION ltree")];

    assert_eq!(
        generate_migrations(current, statements),
        Ok(vec![
            str_to_statement("ALTER TABLE t ALTER COLUMN a SET NOT NULL"),
            str_to_statement("CREATE EXTENSION ltree"),
            str_to_statement("DROP TABLE old CASCADE"),
        ])
    );
}

#[test]
fn a_statement_that_declares_nothing_fails_before_planning() {
    let current = schema(&["CREATE TABLE t (a int, CONSTRAINT c CHECK (a > 0))"]);
    let statements = vec![
        statement("CREATE TABLE t (a int, CONSTRAINT c CHECK (a > 1))"),
        statement("ALTER TABLE t ADD COLUMN b int"),
    ];

    assert_eq!(
        generate_migrations(current, statements),
        Err(MigrationError::UnsupportedStatementType("ALTER TABLE t ADD COLUMN b INT".to_string()))
    );
}
