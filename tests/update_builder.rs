use postgres_querybuilder::prelude::{
    QueryBuilder, QueryBuilderWithFrom, QueryBuilderWithGroupBy, QueryBuilderWithQueries,
    QueryBuilderWithReturningColumns, QueryBuilderWithSet, QueryBuilderWithWhere,
};
use postgres_querybuilder::{SelectBuilder, SqlValue, UpdateBuilder};

#[test]
fn update_builder_from_scratch() {
    let builder = UpdateBuilder::new("publishers");
    assert_eq!(builder.get_query(), "UPDATE publishers");
}

#[test]
fn with_fields_and_where() {
    let mut builder = UpdateBuilder::new("publishers");
    builder.where_eq("trololo", SqlValue::Int(42));
    builder.set("id", SqlValue::Int(5));
    assert_eq!(
        builder.get_query(),
        "UPDATE publishers SET id = $2 WHERE trololo = $1"
    );
}

#[test]
fn with_computed_fields_and_where() {
    let mut builder = UpdateBuilder::new("publishers");
    builder.where_eq("trololo", SqlValue::Int(42));
    builder.set("id", SqlValue::Int(5));
    builder.set_computed("trololo", "md5(42)");
    assert_eq!(
        builder.get_query(),
        "UPDATE publishers SET id = $2, trololo = md5(42) WHERE trololo = $1"
    );
}

#[test]
fn with_set_from_items_and_where() {
    let mut qb = UpdateBuilder::new("features");
    let query = qb
        .where_condition("features.id = tiles.dataset_id")
        .set_computed("geom", "tiles.geom")
        .from("tiles")
        .get_query();
    assert_eq!(
        query,
        "UPDATE features SET geom = tiles.geom FROM tiles WHERE features.id = tiles.dataset_id"
    );
}

#[test]
fn with_set_from_items_where_and_subquery() {
    let mut subquery_builder = SelectBuilder::new("data_delivery_tiles");
    subquery_builder.select("ST_Transform(ST_Union(data_delivery_tiles.geom), 4674) as geom");
    let subquery = subquery_builder
        .where_eq("dataset_id", SqlValue::Int(0))
        .group_by("dataset_id")
        .get_query();
    let mut builder = UpdateBuilder::new("features");
    let query = builder
        .where_eq("features.id", SqlValue::Int(1))
        .set_computed("geom", "tiles.geom")
        .from(format!("({}) tiles", subquery).as_str())
        .get_query();
    assert_eq!(
        query.to_lowercase(),
        "update features set geom = tiles.geom from (select st_transform(st_union(data_delivery_tiles.geom), 4674) as geom from data_delivery_tiles where dataset_id = $1 group by dataset_id) tiles where features.id = $1"
    );
}

#[test]
fn update_index_order_follows_call_order() {
    let mut builder = UpdateBuilder::new("publishers");
    builder.where_eq("k", SqlValue::Int(42));
    builder.set("id", SqlValue::Int(5));
    assert_eq!(
        builder.get_query(),
        "UPDATE publishers SET id = $2 WHERE k = $1"
    );
    assert_eq!(
        builder.get_ref_params(),
        vec![SqlValue::Int(42), SqlValue::Int(5)]
    );
}

#[test]
fn update_every_clause_in_fixed_order() {
    let mut builder = UpdateBuilder::new("t");
    builder.where_ne("state", SqlValue::Text("done".to_string()));
    builder.returning(vec!["id", "state"]);
    builder.from("u");
    builder.set("state", SqlValue::Text("done".to_string()));
    builder.with_query("w", "SELECT 1");
    assert_eq!(
        builder.get_query(),
        "WITH w AS (SELECT 1) UPDATE t SET state = $2 FROM u RETURNING id, state WHERE state <> $1"
    );
}

#[test]
fn update_get_values_in_push_order() {
    let mut builder = UpdateBuilder::new("t");
    builder.set("a", SqlValue::Oid(3));
    builder.set("b", SqlValue::Bytes(vec![1, 2]));
    builder.where_eq("c", SqlValue::Char(-1));
    assert_eq!(
        builder.get_values(),
        &vec![
            SqlValue::Oid(3),
            SqlValue::Bytes(vec![1, 2]),
            SqlValue::Char(-1)
        ]
    );
    assert_eq!(builder.get_query(), "UPDATE t SET a = $1, b = $2 WHERE c = $3");
}
