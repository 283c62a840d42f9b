use postgres_querybuilder::bucket::Bucket;
use postgres_querybuilder::fragment::{expand_fragment, wrap_in_functions};
use postgres_querybuilder::prelude::{
    QueryBuilder, QueryBuilderWithSet, QueryBuilderWithValues, QueryBuilderWithWhere,
    QueryWithFields,
};
use postgres_querybuilder::text::{join_strings, placeholder_text};
use postgres_querybuilder::{InsertBuilder, SqlValue, UpdateBuilder};

fn placeholder_indices(text: &str) -> Vec<usize> {
    let chars: Vec<char> = text.chars().collect();
    let mut found = Vec::new();
    let mut i = 0;
    while i < chars.len() {
        if chars[i] == '$' {
            let mut j = i + 1;
            let mut n = 0usize;
            while j < chars.len() && chars[j].is_ascii_digit() {
                n = n * 10 + chars[j].to_digit(10).unwrap() as usize;
                j += 1;
            }
            found.push(n);
            i = j;
        } else {
            i += 1;
        }
    }
    found
}

#[test]
fn insert_placeholders_match_extracted_values() {
    let mut builder = InsertBuilder::new("t");
    builder.fields(vec!["a", "b", "c", "d"]);
    builder.value(SqlValue::Int(1));
    builder.value_fragment("f(?, ?)", vec![SqlValue::Int(2), SqlValue::Int(3)]);
    builder.value_with_fn(SqlValue::Int(4), vec!["g"], vec![Some("9")]);
    let query = builder.get_query();
    let params = builder.get_ref_params();
    assert_eq!(placeholder_indices(&query), vec![1, 2, 3, 4]);
    assert_eq!(params.len(), 4);
    assert_eq!(
        params,
        vec![
            SqlValue::Int(1),
            SqlValue::Int(2),
            SqlValue::Int(3),
            SqlValue::Int(4)
        ]
    );
}

#[test]
fn update_placeholders_number_every_value_once() {
    let mut builder = UpdateBuilder::new("t");
    builder.where_eq("k", SqlValue::Int(42));
    builder.set("a", SqlValue::Int(5));
    builder.where_ne("j", SqlValue::Int(6));
    builder.set("b", SqlValue::Int(7));
    let query = builder.get_query();
    let mut found = placeholder_indices(&query);
    assert_eq!(found, vec![2, 4, 1, 3]);
    found.sort();
    assert_eq!(found, vec![1, 2, 3, 4]);
    assert_eq!(builder.get_ref_params().len(), 4);
}

#[test]
fn expand_into_empty_store() {
    let mut store = Bucket::new();
    let text = expand_fragment(
        &mut store,
        "f(?, ?)",
        vec![SqlValue::Text("x".to_string()), SqlValue::Text("y".to_string())],
    );
    assert_eq!(text, "f($1, $2)");
    assert_eq!(
        store.into_values(),
        vec![SqlValue::Text("x".to_string()), SqlValue::Text("y".to_string())]
    );
}

#[test]
fn expand_continues_numbering_of_store() {
    let mut store = Bucket::new();
    assert_eq!(store.push(SqlValue::Bool(false)), 1);
    let text = expand_fragment(&mut store, "? + ?", vec![]);
    assert_eq!(text, "$2 + $3");
    assert_eq!(store.len(), 3);
    assert_eq!(
        store.values(),
        &vec![
            SqlValue::Bool(false),
            SqlValue::Text("missing_parameter".to_string()),
            SqlValue::Text("missing_parameter".to_string())
        ]
    );
}

#[test]
fn expand_without_markers_keeps_text() {
    let mut store = Bucket::new();
    let text = expand_fragment(&mut store, "now() é", vec![SqlValue::Int(1)]);
    assert_eq!(text, "now() é");
    assert_eq!(store.len(), 0);
}

#[test]
fn wrap_in_functions_nests_outermost_first() {
    let text = wrap_in_functions(
        3,
        vec!["ST_Transform", "ST_GeomFromGeoJSON"],
        vec![Some("4362"), None],
    );
    assert_eq!(text, "ST_Transform(ST_GeomFromGeoJSON($3), 4362)");
}

#[test]
fn wrap_in_functions_with_fewer_arguments() {
    let text = wrap_in_functions(1, vec!["f", "g", "h"], vec![Some("a")]);
    assert_eq!(text, "f(g(h($1, a)))");
}

#[test]
fn placeholder_text_in_decimal() {
    assert_eq!(placeholder_text(0), "$0");
    assert_eq!(placeholder_text(7), "$7");
    assert_eq!(placeholder_text(10), "$10");
    assert_eq!(placeholder_text(1234567), "$1234567");
}

#[test]
fn join_strings_with_separator() {
    assert_eq!(join_strings(&vec![], ", "), "");
    assert_eq!(join_strings(&vec!["a".to_string()], ", "), "a");
    assert_eq!(
        join_strings(&vec!["a".to_string(), "b".to_string(), "c".to_string()], " AND "),
        "a AND b AND c"
    );
}

#[test]
fn insert_then_field_chaining_returns_the_builder() {
    let mut builder = InsertBuilder::new("t");
    let query = builder.field("a").value(SqlValue::Int(1)).get_query();
    assert_eq!(query, "INSERT INTO t (a) VALUES ($1)");
}
