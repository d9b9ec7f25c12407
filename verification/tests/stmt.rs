use xql::blanket::ResultExt;
use xql::blanket::TableExprExt;
use xql::expr::Expr;
use xql::item::Field;
use xql::item::Ident;
use xql::item::Row;
use xql::item::Table;
use xql::item::TableRef;
use xql::table_expr::TableExpr;
use xql::value::Value;

fn lit(i: i32) -> Expr {
    Expr::Literal(Value::Int(i))
}

fn field(e: Expr) -> Field {
    Field { expr: e, alias: None }
}

fn fields(es: Vec<Expr>) -> Vec<Field> {
    es.into_iter().map(field).collect()
}

fn tables(name: &str) -> Vec<Table> {
    vec![Table::new(TableExpr::table(name))]
}

#[test]
fn stmt_test() {
    assert_eq!(
        xql::select(fields(vec![lit(1)])).except(xql::select(fields(vec![lit(2)])).into_result()),
        xql::except(
            xql::select(fields(vec![lit(1)])).into_result(),
            xql::select(fields(vec![lit(2)])).into_result(),
        )
    );
    assert_eq!(
        xql::select(fields(vec![lit(1)])).except_all(
            xql::select(fields(vec![lit(2)])).into_result(),
        ),
        xql::except_all(
            xql::select(fields(vec![lit(1)])).into_result(),
            xql::select(fields(vec![lit(2)])).into_result(),
        )
    );
    assert_eq!(
        xql::select(fields(vec![lit(1)])).intersect(
            xql::select(fields(vec![lit(2)])).into_result(),
        ),
        xql::intersect(
            xql::select(fields(vec![lit(1)])).into_result(),
            xql::select(fields(vec![lit(2)])).into_result(),
        )
    );
    assert_eq!(
        xql::select(fields(vec![lit(1)])).intersect_all(
            xql::select(fields(vec![lit(2)])).into_result(),
        ),
        xql::intersect_all(
            xql::select(fields(vec![lit(1)])).into_result(),
            xql::select(fields(vec![lit(2)])).into_result(),
        )
    );
    assert_eq!(
        xql::select(fields(vec![lit(1)])).union(xql::select(fields(vec![lit(2)])).into_result()),
        xql::union(
            xql::select(fields(vec![lit(1)])).into_result(),
            xql::select(fields(vec![lit(2)])).into_result(),
        )
    );
    assert_eq!(
        xql::select(fields(vec![lit(1)])).union_all(
            xql::select(fields(vec![lit(2)])).into_result(),
        ),
        xql::union_all(
            xql::select(fields(vec![lit(1)])).into_result(),
            xql::select(fields(vec![lit(2)])).into_result(),
        )
    );
}

#[test]
fn binary_test() {
    let one = || xql::select(fields(vec![lit(1)])).into_result();
    let two = || xql::select(fields(vec![lit(2)])).into_result();
    assert_eq!(xql::union(one(), two()).sql_string(), "SELECT 1 UNION SELECT 2");
    assert_eq!(xql::union_all(one(), two()).sql_string(), "SELECT 1 UNION ALL SELECT 2");
    assert_eq!(xql::except(one(), two()).sql_string(), "SELECT 1 EXCEPT SELECT 2");
    assert_eq!(xql::except_all(one(), two()).sql_string(), "SELECT 1 EXCEPT ALL SELECT 2");
    assert_eq!(xql::intersect(one(), two()).sql_string(), "SELECT 1 INTERSECT SELECT 2");
    assert_eq!(xql::intersect_all(one(), two()).sql_string(), "SELECT 1 INTERSECT ALL SELECT 2");
}

#[test]
fn table_expr_test() {
    let cond = || xql::eq(
        Expr::table_column("category", "id"),
        Expr::table_column("book", "category_id"),
    );
    let cat = || TableExpr::table("category");
    let book = || TableExpr::table("book");
    assert_eq!(cat().join(book(), cond()), xql::join(cat(), book(), cond()));
    assert_eq!(cat().left_join(book(), cond()), xql::left_join(cat(), book(), cond()));
    assert_eq!(cat().right_join(book(), cond()), xql::right_join(cat(), book(), cond()));
    assert_eq!(cat().full_join(book(), cond()), xql::full_join(cat(), book(), cond()));
    assert_eq!(cat().cross_join(book()), xql::cross_join(cat(), book()));
    assert_eq!(cat().natural_join(book()), xql::natural_join(cat(), book()));
    assert_eq!(cat().natural_left_join(book()), xql::natural_left_join(cat(), book()));
    assert_eq!(cat().natural_right_join(book()), xql::natural_right_join(cat(), book()));
    assert_eq!(cat().natural_full_join(book()), xql::natural_full_join(cat(), book()));
}

#[test]
fn join_render() {
    let cond = || xql::eq(Expr::table_column("a", "id"), Expr::table_column("b", "id"));
    let a = || TableExpr::table("a");
    let b = || TableExpr::table("b");
    assert_eq!(xql::join(a(), b(), cond()).sql_string(), "a JOIN b ON a.id = b.id");
    assert_eq!(xql::left_join(a(), b(), cond()).sql_string(), "a LEFT JOIN b ON a.id = b.id");
    assert_eq!(xql::right_join(a(), b(), cond()).sql_string(), "a RIGHT JOIN b ON a.id = b.id");
    assert_eq!(xql::full_join(a(), b(), cond()).sql_string(), "a FULL JOIN b ON a.id = b.id");
    assert_eq!(xql::natural_join(a(), b()).sql_string(), "a NATURAL JOIN b");
    assert_eq!(xql::natural_left_join(a(), b()).sql_string(), "a NATURAL LEFT JOIN b");
    assert_eq!(xql::natural_right_join(a(), b()).sql_string(), "a NATURAL RIGHT JOIN b");
    assert_eq!(xql::natural_full_join(a(), b()).sql_string(), "a NATURAL FULL JOIN b");
    assert_eq!(xql::cross_join(a(), b()).sql_string(), "a CROSS JOIN b");

    let sub = xql::select(vec![
        xql::as_field(lit(1), Ident::new("one")),
        xql::as_field(lit(2), Ident::new("two")),
    ]);
    let query = xql::select(fields(vec![
        Expr::table_column("sub", "one"),
        Expr::table_column("sub", "two"),
    ]))
    .from(vec![xql::as_table(TableExpr::SubQuery(xql::stmt::data::Data::Select(Box::new(sub))), Ident::new("sub"))]);
    assert_eq!(
        query.sql_string(),
        "SELECT sub.one, sub.two FROM (SELECT 1 AS one, 2 AS two) AS sub"
    );
}

#[test]
fn select_test() {
    let mut query = xql::select(fields(vec![
        Expr::table_column("data", "id"),
        Expr::table_column("data", "value"),
    ]));
    query = query.select(fields(vec![
        Expr::FuncCall(xql::count(Expr::column("id"))),
        Expr::FuncCall(xql::max(Expr::column("age"))),
        Expr::FuncCall(xql::min(Expr::column("age"))),
        Expr::FuncCall(xql::avg(Expr::column("age"))),
    ]));
    query = query
        .from(vec![Table::new(TableExpr::schema_table("public", "data"))])
        .from(vec![Table::new(TableExpr::FuncCall(xql::func(
            xql::item::FuncRef::func("unnest"),
            vec![Expr::table_column("data", "value")],
        )))])
        .filter(xql::and(
            xql::eq(Expr::table_column("data", "id"), lit(1)),
            xql::eq(Expr::table_column("data", "name"), Expr::text("name")),
        ))
        .group_by(vec![Expr::table_column("data", "id")])
        .having(Expr::Literal(Value::Bool(true)))
        .order_by(vec![xql::desc(Expr::table_column("data", "id"))]);
    let expect = "SELECT data.id, data.value, count(id), max(age), min(age), avg(age) FROM public.data, unnest(data.value) WHERE data.id = 1 AND data.name = 'name' GROUP BY data.id HAVING true ORDER BY data.id DESC";
    assert_eq!(query.sql_string(), expect);
}

#[test]
fn insert_test() {
    let query = xql::insert(
        TableRef::table("user"),
        vec![Ident::new("id"), Ident::new("name")],
    )
    .values(vec![
        Row(vec![lit(1), Expr::text("John")]),
        Row(vec![lit(2), Expr::text("Jack")]),
    ])
    .returning(fields(vec![Expr::column("id"), Expr::column("name")]));
    assert_eq!(
        query.sql_string(),
        "INSERT INTO user(id, name) VALUES (1, 'John'), (2, 'Jack') RETURNING id, name"
    );

    let query = xql::insert(
        TableRef::table("user"),
        vec![Ident::new("id"), Ident::new("name")],
    )
    .select(xql::select(fields(vec![lit(1), Expr::text("name")])))
    .returning(fields(vec![Expr::column("id"), Expr::column("name")]));
    assert_eq!(
        query.sql_string(),
        "INSERT INTO user(id, name) SELECT 1, 'name' RETURNING id, name"
    );
}

#[test]
fn delete_test() {
    let query = xql::delete(TableRef::table("user"))
        .filter(xql::and(
            xql::not(Expr::table_column("user", "active")),
            xql::isnull(Expr::table_column("user", "name")),
        ))
        .returning(fields(vec![Expr::column("id"), Expr::column("name")]));
    assert_eq!(
        query.sql_string(),
        "DELETE FROM user WHERE NOT user.active AND user.name ISNULL RETURNING id, name"
    );
}

#[test]
fn cte() {
    let query = xql::select(fields(vec![Expr::column("name")]))
        .from(vec![
            Table::new(TableExpr::table("tbl1")),
            Table::new(TableExpr::table("tbl2")),
        ])
        .with_labeled(
            Ident::new("tbl1"),
            vec![Ident::new("name")],
            xql::stmt::Stmt::Values(xql::values(vec![Row(vec![Expr::text("tbl1")])])),
        )
        .with(
            Ident::new("tbl2"),
            xql::stmt::Stmt::Select(xql::select(vec![
                xql::as_field(Expr::text("tbl2"), Ident::new("name")),
            ])),
        );
    assert_eq!(
        query.sql_string(),
        "WITH tbl1(name) AS (VALUES ('tbl1')), tbl2 AS (SELECT 'tbl2' AS name) SELECT name FROM tbl1, tbl2"
    );
}

#[test]
fn limit() {
    let query = xql::select(fields(vec![Expr::column("id")])).from(tables("data")).limit(10);
    assert_eq!(query.sql_string(), "SELECT id FROM data LIMIT 10");
    let query = xql::values(vec![Row(vec![lit(1)]), Row(vec![lit(2)])]).limit(10);
    assert_eq!(query.sql_string(), "VALUES (1), (2) LIMIT 10");
}

#[test]
fn offset() {
    let query = xql::select(fields(vec![Expr::column("id")])).from(tables("data")).offset(10);
    assert_eq!(query.sql_string(), "SELECT id FROM data OFFSET 10");
    let query = xql::values(vec![Row(vec![lit(1)]), Row(vec![lit(2)])]).offset(10);
    assert_eq!(query.sql_string(), "VALUES (1), (2) OFFSET 10");
}
