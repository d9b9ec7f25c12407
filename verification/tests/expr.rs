use xql::expr::Expr;
use xql::item::ColumnRef;
use xql::item::Ident;
use xql::item::Order;
use xql::item::Sort;
use xql::value::Null;
use xql::value::Value;

fn lit(i: i32) -> Expr {
    Expr::Literal(Value::Int(i))
}

#[test]
fn literal() {
    assert_eq!(Expr::literal(Value::from_bool(true)), Expr::Literal(Value::Bool(true)));
    assert_eq!(Expr::literal(Value::from_bool(false)), Expr::Literal(Value::Bool(false)));
    assert_eq!(Expr::literal(Value::from_i8(8)), Expr::Literal(Value::TinyInt(8)));
    assert_eq!(Expr::literal(Value::from_i16(16)), Expr::Literal(Value::SmallInt(16)));
    assert_eq!(Expr::literal(Value::from_i32(32)), Expr::Literal(Value::Int(32)));
    assert_eq!(Expr::literal(Value::from_i64(64)), Expr::Literal(Value::BigInt(64)));
    assert_eq!(Expr::text("text"), Expr::Literal(Value::Text("text".to_string())));
}

#[test]
fn literal_fmt() {
    assert_eq!(Expr::Literal(Value::Bool(true)).sql_string(), "true");
    assert_eq!(Expr::Literal(Value::Bool(false)).sql_string(), "false");
    assert_eq!(Expr::Literal(Value::TinyInt(8)).sql_string(), "8");
    assert_eq!(Expr::Literal(Value::SmallInt(16)).sql_string(), "16");
    assert_eq!(Expr::Literal(Value::Int(32)).sql_string(), "32");
    assert_eq!(Expr::Literal(Value::BigInt(64)).sql_string(), "64");
    assert_eq!(Expr::text("text").sql_string(), "'text'");
}

#[test]
fn option() {
    assert_eq!(Expr::literal(Value::from_opt_i32(None)).sql_string(), "null");
    assert_eq!(Expr::literal(Value::from_opt_i32(Some(1))).sql_string(), "1");
}

#[test]
fn column_ref() {
    assert_eq!(
        Expr::column("id"),
        Expr::Column(ColumnRef::Column(Ident("id".to_string())))
    );
    assert_eq!(
        Expr::table_column("user", "id"),
        Expr::Column(ColumnRef::TableColumn(Ident("user".to_string()), Ident("id".to_string())))
    );
    assert_eq!(
        Expr::schema_table_column("public", "user", "id"),
        Expr::Column(ColumnRef::SchemaTableColumn(
            Ident("public".to_string()),
            Ident("user".to_string()),
            Ident("id".to_string())
        ))
    );
}

#[test]
fn func_call() {
    assert_eq!(xql::sum(Expr::column("num")).sql_string(), "sum(num)");
    assert_eq!(xql::count(Expr::column("id")).sql_string(), "count(id)");
    assert_eq!(xql::avg(Expr::column("age")).sql_string(), "avg(age)");
}

#[test]
fn column_ref_fmt() {
    assert_eq!(Expr::column("id").sql_string(), "id");
    assert_eq!(Expr::table_column("user", "id").sql_string(), "user.id");
    assert_eq!(Expr::schema_table_column("public", "user", "id").sql_string(), "public.user.id");
}

#[test]
fn ops() {
    assert_eq!(xql::add(lit(1), lit(2)), Expr::Infix(Box::new(lit(1)), "+", Box::new(lit(2))));
    assert_eq!(xql::sub(lit(1), lit(2)), Expr::Infix(Box::new(lit(1)), "-", Box::new(lit(2))));
    assert_eq!(xql::mul(lit(1), lit(2)), Expr::Infix(Box::new(lit(1)), "*", Box::new(lit(2))));
    assert_eq!(xql::div(lit(1), lit(2)), Expr::Infix(Box::new(lit(1)), "/", Box::new(lit(2))));
    assert_eq!(xql::rem(lit(1), lit(2)), Expr::Infix(Box::new(lit(1)), "%", Box::new(lit(2))));
    assert_eq!(xql::eq(lit(1), lit(2)), Expr::Infix(Box::new(lit(1)), "=", Box::new(lit(2))));
    assert_eq!(xql::ne(lit(1), lit(2)), Expr::Infix(Box::new(lit(1)), "<>", Box::new(lit(2))));
    assert_eq!(xql::gt(lit(1), lit(2)), Expr::Infix(Box::new(lit(1)), ">", Box::new(lit(2))));
    assert_eq!(xql::ge(lit(1), lit(2)), Expr::Infix(Box::new(lit(1)), ">=", Box::new(lit(2))));
    assert_eq!(xql::lt(lit(1), lit(2)), Expr::Infix(Box::new(lit(1)), "<", Box::new(lit(2))));
    assert_eq!(xql::le(lit(1), lit(2)), Expr::Infix(Box::new(lit(1)), "<=", Box::new(lit(2))));
    assert_eq!(xql::and(lit(1), lit(2)), Expr::Infix(Box::new(lit(1)), "AND", Box::new(lit(2))));
    assert_eq!(xql::or(lit(1), lit(2)), Expr::Infix(Box::new(lit(1)), "OR", Box::new(lit(2))));
    assert_eq!(xql::like(lit(1), lit(2)), Expr::Infix(Box::new(lit(1)), "LIKE", Box::new(lit(2))));
    assert_eq!(
        xql::ilike(lit(1), lit(2)),
        Expr::Infix(Box::new(lit(1)), "ILIKE", Box::new(lit(2)))
    );
    assert_eq!(
        xql::asc(Expr::column("id")),
        Order(Expr::column("id"), Some(Sort::Asc))
    );
    assert_eq!(
        xql::desc(Expr::column("id")),
        Order(Expr::column("id"), Some(Sort::Desc))
    );
    assert_eq!(
        xql::not(Expr::Literal(Value::Bool(true))),
        Expr::Prefix("NOT", Box::new(Expr::Literal(Value::Bool(true))))
    );
    assert_eq!(
        xql::isnull(Expr::column("expr")),
        Expr::Postfix(Box::new(Expr::column("expr")), "ISNULL")
    );
}

#[test]
fn parenthesis() {
    let cond1 = xql::or(Expr::column("a"), Expr::column("b"));
    let cond2 = xql::or(Expr::column("c"), Expr::column("d"));
    let cond = xql::and(xql::paren(cond1), xql::paren(cond2));
    assert_eq!(cond.sql_string(), "(a OR b) AND (c OR d)");
}

#[test]
fn binops() {
    assert_eq!(lit(1).eq(lit(1)).sql_string(), "1 = 1");
    assert_eq!(lit(1).equal(lit(1)).sql_string(), "1 = 1");
    assert_eq!(lit(1).ne(lit(1)).sql_string(), "1 <> 1");
    assert_eq!(lit(1).not_equal(lit(1)).sql_string(), "1 <> 1");
    assert_eq!(lit(1).gt(lit(1)).sql_string(), "1 > 1");
    assert_eq!(lit(1).greater_than(lit(1)).sql_string(), "1 > 1");
    assert_eq!(lit(1).ge(lit(1)).sql_string(), "1 >= 1");
    assert_eq!(lit(1).greater_equal(lit(1)).sql_string(), "1 >= 1");
    assert_eq!(lit(1).lt(lit(1)).sql_string(), "1 < 1");
    assert_eq!(lit(1).less_than(lit(1)).sql_string(), "1 < 1");
    assert_eq!(lit(1).le(lit(1)).sql_string(), "1 <= 1");
    assert_eq!(lit(1).less_equal(lit(1)).sql_string(), "1 <= 1");
    assert_eq!(lit(1).and(lit(1)).sql_string(), "1 AND 1");
    assert_eq!(lit(1).or(lit(1)).sql_string(), "1 OR 1");
    assert_eq!(lit(1).like(lit(1)).sql_string(), "1 LIKE 1");
    assert_eq!(lit(1).ilike(lit(1)).sql_string(), "1 ILIKE 1");
}

#[test]
fn conversions() {
    assert_eq!(Value::from_bool(true), Value::Bool(true));
    assert_eq!(Value::from_i8(8), Value::TinyInt(8));
    assert_eq!(Value::from_i16(16), Value::SmallInt(16));
    assert_eq!(Value::from_i32(32), Value::Int(32));
    assert_eq!(Value::from_i64(64), Value::BigInt(64));
    assert_eq!(Value::from_u8(8), Value::TinyUInt(8));
    assert_eq!(Value::from_u16(16), Value::SmallUInt(16));
    assert_eq!(Value::from_u32(32), Value::UInt(32));
    assert_eq!(Value::from_u64(64), Value::BigUInt(64));
    assert_eq!(Value::bytes(vec![1, 2]), Value::Bytes(vec![1, 2]));
    assert_eq!(Value::from_opt_i32(Some(1)), Value::Int(1));
    assert_eq!(Value::from_opt_i32(None), Value::Null(Null::Int));
    assert_eq!(Value::from_opt_bool(None), Value::Null(Null::Bool));
    assert_eq!(Value::from_opt_u64(None), Value::Null(Null::BigUInt));
    assert_eq!(Value::from_opt_text(None), Value::Null(Null::Text));
    assert_eq!(Value::from_opt_bytes(None), Value::Null(Null::Bytes));
    assert_eq!(Value::from_opt_i32(None).kind(), Null::Int);
    assert_eq!(Expr::literal(Value::from_opt_i32(None)).sql_string(), "null");
}
