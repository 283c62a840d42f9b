use postgres_querybuilder::prelude::{QueryBuilder, QueryBuilderWithWhere};
use postgres_querybuilder::{DeleteBuilder, SqlValue};

#[test]
fn delete_builder_from_scratch() {
    let builder = DeleteBuilder::new("publishers");
    assert_eq!(builder.get_query(), "DELETE FROM publishers");
}

#[test]
fn with_where() {
    let mut builder = DeleteBuilder::new("publishers");
    builder.where_eq("id", SqlValue::Int(22));
    assert_eq!(builder.get_query(), "DELETE FROM publishers WHERE id = $1",);
}

#[test]
fn delete_with_several_conditions_keeps_call_order() {
    let mut builder = DeleteBuilder::new("users");
    builder.where_eq("id", SqlValue::Int(42));
    builder.where_condition("deleted_at IS NULL");
    builder.where_ne("name", SqlValue::Text("rick".to_string()));
    assert_eq!(
        builder.get_query(),
        "DELETE FROM users WHERE id = $1 AND deleted_at IS NULL AND name <> $2"
    );
    assert_eq!(
        builder.get_ref_params(),
        vec![SqlValue::Int(42), SqlValue::Text("rick".to_string())]
    );
}

#[test]
fn delete_add_param_leaves_text_unchanged() {
    let mut builder = DeleteBuilder::new("users");
    let first = builder.add_param(SqlValue::Int(18));
    let second = builder.add_param(SqlValue::Int(28));
    assert_eq!((first, second), (1, 2));
    assert_eq!(builder.get_query(), "DELETE FROM users");
    let condition = format!("age = ${} OR age = ${}", first, second);
    builder.where_condition(condition.as_str());
    assert_eq!(builder.get_query(), "DELETE FROM users WHERE age = $1 OR age = $2");
    assert_eq!(builder.get_ref_params(), vec![SqlValue::Int(18), SqlValue::Int(28)]);
}
