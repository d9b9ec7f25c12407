use xql::clause;
use xql::expr::Expr;
use xql::item::Field;
use xql::item::Order;
use xql::item::Sort;
use xql::item::Table;
use xql::table_expr::TableExpr;
use xql::value::Value;

fn field(e: Expr) -> Field {
    Field { expr: e, alias: None }
}

#[test]
fn clause_select() {
    let clause = clause::Select(vec![field(Expr::column("id"))]);
    assert_eq!(clause, clause::Select(vec![field(Expr::column("id"))]));
    assert_eq!(clause.sql_string(), "SELECT id");

    let mut clause = clause::Select(vec![field(Expr::column("id"))]);
    clause.0.push(field(Expr::table_column("user", "name")));
    assert_eq!(
        clause,
        clause::Select(vec![
            field(Expr::column("id")),
            field(Expr::table_column("user", "name")),
        ])
    );
    assert_eq!(clause.sql_string(), "SELECT id, user.name");
}

#[test]
fn from() {
    let clause = clause::From(vec![Table::new(TableExpr::table("user"))]);
    assert_eq!(clause, clause::From(vec![Table::new(TableExpr::table("user"))]));
    assert_eq!(clause.sql_string(), "FROM user");

    let mut clause = clause::From(vec![Table::new(TableExpr::table("user"))]);
    clause.0.push(Table::new(TableExpr::schema_table("public", "contact")));
    assert_eq!(
        clause,
        clause::From(vec![
            Table::new(TableExpr::table("user")),
            Table::new(TableExpr::schema_table("public", "contact")),
        ])
    );
    assert_eq!(clause.sql_string(), "FROM user, public.contact");
}

#[test]
fn where_() {
    let clause = clause::Where(Expr::Literal(Value::Bool(true)));
    assert_eq!(clause, clause::Where(Expr::Literal(Value::Bool(true))));
    assert_eq!(clause.sql_string(), "WHERE true");
}

#[test]
fn group_by() {
    let clause = clause::GroupBy(vec![Expr::column("id")]);
    assert_eq!(clause, clause::GroupBy(vec![Expr::column("id")]));
    assert_eq!(clause.sql_string(), "GROUP BY id");

    let mut clause = clause::GroupBy(vec![Expr::column("id")]);
    clause.0.push(Expr::table_column("user", "name"));
    assert_eq!(
        clause,
        clause::GroupBy(vec![Expr::column("id"), Expr::table_column("user", "name")])
    );
    assert_eq!(clause.sql_string(), "GROUP BY id, user.name");
}

#[test]
fn having() {
    let clause = clause::Having(Expr::Literal(Value::Bool(true)));
    assert_eq!(clause, clause::Having(Expr::Literal(Value::Bool(true))));
    assert_eq!(clause.sql_string(), "HAVING true");
}

#[test]
fn order_by() {
    let clause = clause::OrderBy(vec![Order(Expr::column("id"), None)]);
    assert_eq!(clause, clause::OrderBy(vec![Order(Expr::column("id"), None)]));
    assert_eq!(clause.sql_string(), "ORDER BY id");

    let mut clause = clause::OrderBy(vec![Order(Expr::column("id"), None)]);
    clause.0.push(Order(Expr::table_column("user", "name"), Some(Sort::Desc)));
    assert_eq!(
        clause,
        clause::OrderBy(vec![
            Order(Expr::column("id"), None),
            Order(Expr::table_column("user", "name"), Some(Sort::Desc)),
        ])
    );
    assert_eq!(clause.sql_string(), "ORDER BY id, user.name DESC");
}
