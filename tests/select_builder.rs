use postgres_querybuilder::prelude::{
    Join, Order, QueryBuilder, QueryBuilderWithGroupBy, QueryBuilderWithJoin,
    QueryBuilderWithLimit, QueryBuilderWithOffset, QueryBuilderWithOrder, QueryBuilderWithQueries,
    QueryBuilderWithWhere,
};
use postgres_querybuilder::{SelectBuilder, SqlValue};

#[test]
fn select_builder_from_scratch() {
    let builder = SelectBuilder::new("publishers");
    assert_eq!(builder.get_query(), "SELECT * FROM publishers");
}

#[test]
fn with_columns() {
    let mut builder = SelectBuilder::new("publishers");
    builder.select("id");
    builder.select("name");
    assert_eq!(builder.get_query(), "SELECT id, name FROM publishers");
}

#[test]
fn with_limit() {
    let mut builder = SelectBuilder::new("publishers");
    builder.select("id");
    builder.limit(10);
    assert_eq!(builder.get_query(), "SELECT id FROM publishers LIMIT $1");
}

#[test]
fn with_limit_offset() {
    let mut builder = SelectBuilder::new("publishers");
    builder.select("id");
    builder.limit(10);
    builder.offset(5);
    assert_eq!(
        builder.get_query(),
        "SELECT id FROM publishers LIMIT $1 OFFSET $2"
    );
}

#[test]
fn with_where_eq() {
    let mut builder = SelectBuilder::new("publishers");
    builder.select("id");
    builder.select("name");
    builder.where_eq("trololo", SqlValue::Int(42));
    builder.where_eq("tralala", SqlValue::Bool(true));
    builder.where_ne("trululu", SqlValue::Text("trololo".to_string()));
    assert_eq!(
        builder.get_query(),
        "SELECT id, name FROM publishers WHERE trololo = $1 AND tralala = $2 AND trululu <> $3"
    );
}

#[test]
fn with_order() {
    let mut builder = SelectBuilder::new("publishers");
    builder.select("id");
    builder.order_by(Order::Asc("id".into()));
    builder.order_by(Order::Desc("name".into()));
    assert_eq!(
        builder.get_query(),
        "SELECT id FROM publishers ORDER BY id ASC, name DESC"
    );
}

#[test]
fn select_offset_before_limit_still_renders_limit_first() {
    let mut builder = SelectBuilder::new("publishers");
    builder.select("id");
    builder.offset(5);
    builder.limit(10);
    assert_eq!(
        builder.get_query(),
        "SELECT id FROM publishers LIMIT $2 OFFSET $1"
    );
    assert_eq!(
        builder.get_ref_params(),
        vec![SqlValue::BigInt(5), SqlValue::BigInt(10)]
    );
}

#[test]
fn select_add_where_raw() {
    let mut builder = SelectBuilder::new("users");
    builder.add_where_raw("something IS NULL".into());
    assert_eq!(
        builder.get_query(),
        "SELECT * FROM users WHERE something IS NULL"
    );
}

#[test]
fn select_where_condition_with_own_params() {
    let mut builder = SelectBuilder::new("users");
    let first = builder.add_param(SqlValue::Int(18));
    let second = builder.add_param(SqlValue::Int(28));
    let condition = format!("age = ${} OR age = ${}", first, second);
    builder.where_condition(condition.as_str());
    assert_eq!(
        builder.get_query(),
        "SELECT * FROM users WHERE age = $1 OR age = $2"
    );
}

#[test]
fn select_joins_in_insertion_order() {
    let mut builder = SelectBuilder::new("books");
    builder.inner_join("authors", "authors.id = books.author_id");
    builder.left_join("publishers", "publishers.id = books.publisher_id");
    builder.left_outer_join("ratings", "ratings.book_id = books.id");
    assert_eq!(
        builder.get_query(),
        "SELECT * FROM books INNER JOIN authors ON authors.id = books.author_id LEFT JOIN publishers ON publishers.id = books.publisher_id LEFT OUTER JOIN ratings ON ratings.book_id = books.id"
    );
}

#[test]
fn select_every_clause_in_fixed_order() {
    let mut builder = SelectBuilder::new("books");
    builder.offset(20);
    builder.order_by(Order::Desc("year".into()));
    builder.group_by("author_id");
    builder.where_eq("lang", SqlValue::Text("fr".to_string()));
    builder.left_join("authors", "authors.id = books.author_id");
    builder.select("author_id");
    builder.with_query("recent", "SELECT * FROM books WHERE year > 2000");
    builder.limit(10);
    builder.group_by("year");
    assert_eq!(
        builder.get_query(),
        "WITH recent AS (SELECT * FROM books WHERE year > 2000) SELECT author_id FROM books LEFT JOIN authors ON authors.id = books.author_id WHERE lang = $2 GROUP BY author_id, year ORDER BY year DESC LIMIT $3 OFFSET $1"
    );
    assert_eq!(
        builder.get_ref_params(),
        vec![
            SqlValue::BigInt(20),
            SqlValue::Text("fr".to_string()),
            SqlValue::BigInt(10)
        ]
    );
}

#[test]
fn select_get_query_is_repeatable() {
    let mut builder = SelectBuilder::new("t");
    builder.where_eq("a", SqlValue::SmallInt(1));
    let first = builder.get_query();
    let second = builder.get_query();
    assert_eq!(first, second);
}

#[test]
fn join_to_string() {
    assert_eq!(
        Join::Inner("a".to_string(), "a.id = b.a_id".to_string()).to_string(),
        "INNER JOIN a ON a.id = b.a_id"
    );
    assert_eq!(
        Join::Left("a".to_string(), "x".to_string()).to_string(),
        "LEFT JOIN a ON x"
    );
    assert_eq!(
        Join::LeftOuter("a".to_string(), "x".to_string()).to_string(),
        "LEFT OUTER JOIN a ON x"
    );
}

#[test]
fn order_to_string() {
    assert_eq!(Order::Asc("name".to_string()).to_string(), "name ASC");
    assert_eq!(Order::Desc("name".to_string()).to_string(), "name DESC");
}
