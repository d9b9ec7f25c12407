use xql::expr::Expr;
use xql::item::ColumnRef;
use xql::item::Field;
use xql::item::Ident;
use xql::item::Row;
use xql::item::Table;
use xql::item::TableRef;
use xql::table_expr::TableExpr;
use xql::value::Value;
use xql::Schema;

struct Book {
    id: i32,
    title: String,
    author: String,
    year: i16,
}

impl Schema for Book {
    fn table() -> TableRef {
        TableRef::table("book")
    }

    fn columns() -> Vec<ColumnRef> {
        vec![
            ColumnRef::table_column("book", "id"),
            ColumnRef::table_column("book", "title"),
            ColumnRef::table_column("book", "author"),
            ColumnRef::table_column("book", "year"),
        ]
    }
}

impl Book {
    fn row(&self) -> Row {
        Row(vec![
            Expr::Literal(Value::Int(self.id)),
            Expr::text(&self.title),
            Expr::text(&self.author),
            Expr::Literal(Value::SmallInt(self.year)),
        ])
    }

    fn sets(&self) -> Vec<(Ident, Expr)> {
        vec![
            (Ident::new("id"), Expr::Literal(Value::Int(self.id))),
            (Ident::new("title"), Expr::text(&self.title)),
            (Ident::new("author"), Expr::text(&self.author)),
            (Ident::new("year"), Expr::Literal(Value::SmallInt(self.year))),
        ]
    }
}

fn column_fields() -> Vec<Field> {
    Book::columns().into_iter().map(|c| Field { expr: Expr::Column(c), alias: None }).collect()
}

fn column_idents() -> Vec<Ident> {
    vec![Ident::new("id"), Ident::new("title"), Ident::new("author"), Ident::new("year")]
}

fn dune() -> Book {
    Book {
        id: 1,
        title: "Dune".to_string(),
        author: "Frank Herbert".to_string(),
        year: 1965,
    }
}

#[test]
fn derive_select() {
    let expect = "SELECT book.id, book.title, book.author, book.year FROM book";
    let query = xql::select(column_fields()).from(vec![Table::new(TableExpr::TableRef(
        Book::table(),
    ))]);
    assert_eq!(query.sql_string(), expect);
    let query = xql::select(column_fields()).from(vec![Table::new(TableExpr::TableRef(
        Book::table(),
    ))]);
    assert_eq!(query.sql_string(), expect);
}

#[test]
fn insert() {
    let book = dune();
    let expect = "INSERT INTO book(id, title, author, year) VALUES (1, 'Dune', 'Frank Herbert', 1965) RETURNING book.id, book.title, book.author, book.year";
    let query = xql::insert(Book::table(), column_idents())
        .values(vec![book.row()])
        .returning(column_fields());
    assert_eq!(query.sql_string(), expect);
    let query = xql::insert(Book::table(), column_idents())
        .values(vec![book.row()])
        .returning(column_fields());
    assert_eq!(query.sql_string(), expect);
}

#[test]
fn update() {
    let book = dune();
    let expect = "UPDATE book SET id = 1, title = 'Dune', author = 'Frank Herbert', year = 1965 RETURNING book.id, book.title, book.author, book.year";
    let query = xql::update(Book::table()).set_values(book.sets()).returning(column_fields());
    assert_eq!(query.sql_string(), expect);
    let query = xql::update(Book::table()).set_values(book.sets()).returning(column_fields());
    assert_eq!(query.sql_string(), expect);
}

#[test]
fn delete() {
    let expect = "DELETE FROM book";
    let query = xql::delete(Book::table());
    assert_eq!(query.sql_string(), expect);
    let query = xql::delete(Book::table());
    assert_eq!(query.sql_string(), expect);
}
