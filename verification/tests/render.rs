use xql::bind::Backend;
use xql::bind::BindError;
use xql::build::Dialect;
use xql::expr::Expr;
use xql::item::Field;
use xql::item::Ident;
use xql::item::Table;
use xql::stmt::Stmt;
use xql::table_expr::TableExpr;
use xql::value::Null;
use xql::value::Value;

fn field(e: Expr) -> Field {
    Field { expr: e, alias: None }
}

fn fields(es: Vec<Expr>) -> Vec<Field> {
    es.into_iter().map(field).collect()
}

fn user_query() -> Stmt {
    Stmt::Select(
        xql::select(fields(vec![Expr::column("id"), Expr::column("name")]))
            .from(vec![Table::new(TableExpr::table("user"))])
            .filter(xql::and(
                xql::eq(Expr::column("id"), Expr::Literal(Value::Int(1))),
                xql::eq(Expr::column("name"), Expr::text("Ada"))
            )),
    )
}

#[test]
fn scenario_select() {
    let q = xql::select(fields(vec![Expr::column("id")])).from(vec![Table::new(
        TableExpr::table("user"),
    )]);
    assert_eq!(q.sql_string(), "SELECT id FROM user");
}

#[test]
fn scenario_qualified_from() {
    let q = xql::select(fields(vec![Expr::column("id"), Expr::column("name")])).from(vec![
        Table::new(TableExpr::schema_table("public", "contact")),
    ]);
    assert_eq!(q.sql_string(), "SELECT id, name FROM public.contact");
}

#[test]
fn scenario_union() {
    let q = xql::union(
        xql::select(fields(vec![Expr::Literal(Value::Int(1))])).into_result(),
        xql::select(fields(vec![Expr::Literal(Value::Int(2))])).into_result(),
    );
    assert_eq!(q.sql_string(), "SELECT 1 UNION SELECT 2");
}

#[test]
fn numbered_placeholders() {
    let (sql, args) = user_query().to_sql(Dialect::postgres());
    assert_eq!(sql, "SELECT \"id\", \"name\" FROM \"user\" WHERE \"id\" = $1 AND \"name\" = $2");
    assert_eq!(args, vec![Value::Int(1), Value::Text("Ada".to_string())]);
}

#[test]
fn question_placeholders() {
    let (sql, args) = user_query().to_sql(Dialect::mysql());
    assert_eq!(sql, "SELECT `id`, `name` FROM `user` WHERE `id` = ? AND `name` = ?");
    assert_eq!(args, vec![Value::Int(1), Value::Text("Ada".to_string())]);
    let (sql, args) = user_query().to_sql(Dialect::sqlite());
    assert_eq!(sql, "SELECT \"id\", \"name\" FROM \"user\" WHERE \"id\" = ? AND \"name\" = ?");
    assert_eq!(args.len(), 2);
}

#[test]
fn placeholder_count_matches_args() {
    let (sql, args) = user_query().to_sql(Dialect::mysql());
    let holes = sql.chars().filter(|c| *c == '?').count();
    assert_eq!(holes, args.len());
}

#[test]
fn inline_rendering_deterministic() {
    assert_eq!(user_query().sql_string(), user_query().sql_string());
}

#[test]
fn limit_is_parameterized() {
    let q = Stmt::Result(xql::select(fields(vec![Expr::column("id")])).limit(10));
    let (sql, args) = q.to_sql(Dialect::postgres());
    assert_eq!(sql, "SELECT \"id\" LIMIT $1");
    assert_eq!(args, vec![Value::BigInt(10)]);
}

#[test]
fn compile_keeps_order() {
    let q = user_query().compile(Dialect::postgres());
    assert_eq!(q.args, vec![Value::Int(1), Value::Text("Ada".to_string())]);
    assert!(!q.persistent);
    let q = user_query().compile(Dialect::postgres()).persistent(true);
    assert!(q.persistent);
}

#[test]
fn quoting() {
    assert_eq!(xql::quote("it's", '\''), "'it''s'");
    assert_eq!(xql::quote("plain", '"'), "\"plain\"");
    assert_eq!(xql::quote_pretty("user_2", '"'), "user_2");
    assert_eq!(xql::quote_pretty("_tmp", '"'), "_tmp");
    assert_eq!(xql::quote_pretty("2user", '"'), "\"2user\"");
    assert_eq!(xql::quote_pretty("Abc", '"'), "\"Abc\"");
    assert_eq!(xql::quote_pretty("%", '"'), "\"%\"");
    assert_eq!(xql::quote_pretty("strange\"name", '"'), "\"strange\"\"name\"");
    assert_eq!(xql::quote_pretty("", '"'), "\"\"");
}

#[test]
fn join_strings() {
    let parts = vec!["a".to_string(), "b".to_string(), "c".to_string()];
    assert_eq!(xql::join_strings(&parts, ", "), "a, b, c");
    let one = vec!["a".to_string()];
    assert_eq!(xql::join_strings(&one, ", "), "a");
    let none: Vec<String> = Vec::new();
    assert_eq!(xql::join_strings(&none, ", "), "");
}

#[test]
fn inline_values() {
    assert_eq!(Expr::Literal(Value::BigInt(-9223372036854775808)).sql_string(), "-9223372036854775808");
    assert_eq!(Expr::Literal(Value::BigUInt(18446744073709551615)).sql_string(), "18446744073709551615");
    assert_eq!(Expr::Literal(Value::TinyInt(-5)).sql_string(), "-5");
    assert_eq!(Expr::Literal(Value::TinyUInt(0)).sql_string(), "0");
    assert_eq!(Expr::Literal(Value::Bytes(vec![0x00, 0x2a, 0xff])).sql_string(), "b\"002aff\"");
    assert_eq!(Expr::text("O'Hara").sql_string(), "'O''Hara'");
}

#[test]
fn filter_and_combines() {
    let one = xql::select(fields(vec![Expr::column("id")]))
        .filter(xql::ge(Expr::column("id"), Expr::Literal(Value::Int(1))))
        .filter(xql::ge(Expr::column("year"), Expr::Literal(Value::Int(1970))));
    let two = xql::select(fields(vec![Expr::column("id")])).filter(xql::and(
        xql::ge(Expr::column("id"), Expr::Literal(Value::Int(1))),
        xql::ge(Expr::column("year"), Expr::Literal(Value::Int(1970))),
    ));
    assert_eq!(one, two);
}

#[test]
fn select_extends() {
    let one = xql::select(fields(vec![Expr::column("id")])).select(fields(vec![Expr::column(
        "name",
    )]));
    let two = xql::select(fields(vec![Expr::column("id"), Expr::column("name")]));
    assert_eq!(one, two);
}

#[test]
fn recursive_toggle() {
    let no_with = xql::select(fields(vec![Expr::column("id")])).recursive();
    assert_eq!(no_with, xql::select(fields(vec![Expr::column("id")])));
    let with = xql::select(fields(vec![Expr::column("id")]))
        .with(
            Ident::new("t"),
            Stmt::Select(xql::select(fields(vec![Expr::Literal(Value::Int(1))]))),
        )
        .recursive();
    assert!(with.sql_string().starts_with("WITH RECURSIVE "));
}

#[test]
fn unsupported_binding() {
    let args = vec![Value::Int(1), Value::BigUInt(7)];
    assert_eq!(
        xql::bind::check_args(Backend::Postgres, &args),
        Err(BindError { backend: Backend::Postgres, kind: Null::BigUInt })
    );
    assert_eq!(
        xql::bind::check_args(Backend::Sqlite, &args),
        Err(BindError { backend: Backend::Sqlite, kind: Null::BigUInt })
    );
    assert_eq!(xql::bind::check_args(Backend::MySql, &args), Ok(()));
    let fine = vec![Value::Null(Null::Text), Value::Bool(true), Value::Bytes(vec![1])];
    assert_eq!(xql::bind::check_args(Backend::Postgres, &fine), Ok(()));
    assert_eq!(
        xql::bind::check_args(Backend::Postgres, &vec![Value::Null(Null::UInt)]),
        Err(BindError { backend: Backend::Postgres, kind: Null::UInt })
    );
}

#[test]
fn scenario_insert() {
    let q = xql::insert(
        xql::item::TableRef::table("book"),
        vec![Ident::new("id"), Ident::new("name")],
    )
    .values(vec![xql::item::Row(vec![
        Expr::Literal(Value::Int(1)),
        Expr::text("Dune"),
    ])])
    .returning(fields(vec![Expr::column("id")]));
    assert_eq!(q.sql_string(), "INSERT INTO book(id, name) VALUES (1, 'Dune') RETURNING id");
}

#[test]
fn scenario_delete() {
    let q = xql::delete(xql::item::TableRef::table("book"))
        .filter(xql::and(
            xql::not(Expr::table_column("book", "active")),
            xql::isnull(Expr::table_column("book", "name")),
        ))
        .returning(fields(vec![Expr::column("id"), Expr::column("name")]));
    assert_eq!(
        q.sql_string(),
        "DELETE FROM book WHERE NOT book.active AND book.name ISNULL RETURNING id, name"
    );
}

#[test]
fn trees_are_clonable() {
    let q = xql::select(fields(vec![Expr::column("id"), Expr::column("name")]))
        .from(vec![Table::new(TableExpr::table("user"))])
        .filter(xql::eq(Expr::column("id"), Expr::Literal(Value::Int(1))));
    let copy = q.clone();
    assert_eq!(q, copy);
    assert_eq!(q.sql_string(), copy.sql_string());
    let e = xql::and(
        xql::paren(xql::or(Expr::column("a"), Expr::text("b"))),
        xql::isnull(Expr::column("c")),
    );
    assert_eq!(e.clone(), e);
}
