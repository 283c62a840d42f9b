use postgres_querybuilder::prelude::{
    QueryBuilder, QueryBuilderWithOnConflict, QueryBuilderWithQueries,
    QueryBuilderWithReturningColumns, QueryBuilderWithValues, QueryWithFields,
};
use postgres_querybuilder::{InsertBuilder, SqlValue};

#[test]
fn insert_builder_from_scratch() {
    let builder = InsertBuilder::new("publishers");
    assert_eq!(builder.get_query(), "INSERT INTO publishers");
}

#[test]
fn with_fields_and_values() {
    let mut builder = InsertBuilder::new("users");
    builder.fields(vec!["id", "username", "shape"]);
    builder.field("alias");
    builder.value(SqlValue::Int(22));
    builder.value(SqlValue::Text("rick".to_string()));
    builder.value_with_fn(
        SqlValue::Text("some_geojson".to_string()),
        vec!["ST_Transform", "ST_GeomFromGeoJSON"],
        vec![Some("4362"), None],
    );
    builder.value(SqlValue::Text("none".to_string()));
    builder.on_conflict("id", vec!["username", "alias"]);
    builder.returning(vec!["id"]);
    assert_eq!(
        builder.get_query(),
        "INSERT INTO users (id, username, shape, alias) VALUES ($1, $2, ST_Transform(ST_GeomFromGeoJSON($3), 4362), $4) ON CONFLICT (id) DO UPDATE SET username = EXCLUDED.username, alias = EXCLUDED.alias RETURNING id"
    );
}

#[test]
fn insert_single_field_and_value() {
    let mut builder = InsertBuilder::new("publishers");
    builder.field("id");
    builder.value(SqlValue::Int(5));
    assert_eq!(builder.get_query(), "INSERT INTO publishers (id) VALUES ($1)");
    assert_eq!(builder.get_ref_params(), vec![SqlValue::Int(5)]);
}

#[test]
fn insert_value_fragment_binds_each_marker() {
    let mut builder = InsertBuilder::new("t");
    builder.value_fragment(
        "f(?, ?)",
        vec![SqlValue::Text("x".to_string()), SqlValue::Text("y".to_string())],
    );
    assert_eq!(builder.get_query(), "INSERT INTO t VALUES (f($1, $2))");
    assert_eq!(
        builder.get_ref_params(),
        vec![SqlValue::Text("x".to_string()), SqlValue::Text("y".to_string())]
    );
}

#[test]
fn insert_value_fragment_with_too_few_values_binds_sentinel() {
    let mut builder = InsertBuilder::new("t");
    builder.value(SqlValue::Int(1));
    builder.value_fragment("g(?, ?, ?)", vec![SqlValue::Int(7)]);
    assert_eq!(builder.get_query(), "INSERT INTO t VALUES ($1, g($2, $3, $4))");
    assert_eq!(
        builder.get_ref_params(),
        vec![
            SqlValue::Int(1),
            SqlValue::Int(7),
            SqlValue::Text("missing_parameter".to_string()),
            SqlValue::Text("missing_parameter".to_string()),
        ]
    );
}

#[test]
fn insert_value_fragment_drops_extra_values() {
    let mut builder = InsertBuilder::new("t");
    builder.value_fragment("now() - ?", vec![SqlValue::Int(3), SqlValue::Int(4)]);
    assert_eq!(builder.get_query(), "INSERT INTO t VALUES (now() - $1)");
    assert_eq!(builder.get_ref_params(), vec![SqlValue::Int(3)]);
}

#[test]
fn insert_value_fragment_from_the_documentation() {
    let mut builder = InsertBuilder::new("users");
    builder.fields(vec!["id", "username"]);
    builder.field("shape");
    builder.value(SqlValue::Int(22));
    builder.value(SqlValue::Text("rick".to_string()));
    builder.value_fragment(
        "ST_Transform(ST_GeomFromGeoJSON(?), ?)",
        vec![
            SqlValue::Text("some_geojson".to_string()),
            SqlValue::Text("4263".to_string()),
        ],
    );
    builder.on_conflict("id", vec!["username", "alias"]);
    builder.returning(vec!["id"]);
    assert_eq!(
        builder.get_query(),
        "INSERT INTO users (id, username, shape) VALUES ($1, $2, ST_Transform(ST_GeomFromGeoJSON($3), $4)) ON CONFLICT (id) DO UPDATE SET username = EXCLUDED.username, alias = EXCLUDED.alias RETURNING id"
    );
    assert_eq!(builder.get_ref_params().len(), 4);
}

#[test]
fn insert_value_with_fn_trailing_arguments() {
    let mut builder = InsertBuilder::new("t");
    builder.value_with_fn(
        SqlValue::Int(9),
        vec!["a", "b", "c"],
        vec![Some("1"), Some("2"), Some("3")],
    );
    builder.value_with_fn(SqlValue::Int(10), vec!["lower"], vec![]);
    builder.value_with_fn(SqlValue::Int(11), vec![], vec![Some("x")]);
    assert_eq!(
        builder.get_query(),
        "INSERT INTO t VALUES (a(b(c($1, 3), 2), 1), lower($2), $3)"
    );
}

#[test]
fn insert_upsert_do_nothing() {
    let mut builder = InsertBuilder::new("t");
    builder.field("a");
    builder.value(SqlValue::Bool(true));
    builder.on_conflict("a", vec![]);
    assert_eq!(
        builder.get_query(),
        "INSERT INTO t (a) VALUES ($1) ON CONFLICT (a) DO NOTHING"
    );
}

#[test]
fn insert_upsert_update_columns() {
    let mut builder = InsertBuilder::new("x");
    builder.on_conflict("t", vec!["a", "b"]);
    assert_eq!(
        builder.get_query(),
        "INSERT INTO x ON CONFLICT (t) DO UPDATE SET a = EXCLUDED.a, b = EXCLUDED.b"
    );
}

#[test]
fn insert_upsert_last_call_wins() {
    let mut builder = InsertBuilder::new("x");
    builder.on_conflict("t", vec!["a", "b"]);
    builder.on_conflict("u", vec![]);
    assert_eq!(builder.get_query(), "INSERT INTO x ON CONFLICT (u) DO NOTHING");
}

#[test]
fn insert_without_target_has_no_upsert_clause() {
    let mut builder = InsertBuilder::new("x");
    builder.fields(vec!["a", "b"]);
    builder.value(SqlValue::Int(1));
    builder.value(SqlValue::Int(2));
    assert_eq!(builder.get_query(), "INSERT INTO x (a, b) VALUES ($1, $2)");
    assert!(!builder.get_query().contains("ON CONFLICT"));
}

#[test]
fn insert_with_queries_and_chained_calls() {
    let mut builder = InsertBuilder::new("archive");
    builder
        .with_query("old", "SELECT id FROM users")
        .with_query("older", "SELECT id FROM old")
        .field("id")
        .value(SqlValue::BigInt(7))
        .returning(vec!["id", "created_at"]);
    assert_eq!(
        builder.get_query(),
        "WITH old AS (SELECT id FROM users), older AS (SELECT id FROM old) INSERT INTO archive (id) VALUES ($1) RETURNING id, created_at"
    );
    assert_eq!(builder.get_ref_params(), vec![SqlValue::BigInt(7)]);
}

#[test]
fn insert_large_index_is_written_in_decimal() {
    let mut builder = InsertBuilder::new("t");
    for i in 0..12 {
        builder.value(SqlValue::Int(i));
    }
    let query = builder.get_query();
    assert!(query.ends_with("$9, $10, $11, $12)"));
    assert_eq!(builder.get_ref_params().len(), 12);
}
