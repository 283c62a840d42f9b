//! The pieces shared by the statement builders: join and order specifiers,
//! condition fragments, and one narrow trait per clause capability.

use crate::fragment::markers;
use crate::text::{list_clause, list_clause_text, opt_view, placeholder, placeholder_text};
use crate::value::SqlValue;
use vstd::prelude::*;

verus! {

/// A join of another table, with its constraint.
pub enum Join {
    Inner(String, String),
    Left(String, String),
    LeftOuter(String, String),
}

impl Join {
    /// The text of this join in a `SELECT` statement.
    pub open spec fn text(&self) -> Seq<char> {
        match self {
            Join::Inner(table, constraint) => "INNER JOIN "@ + table@ + " ON "@ + constraint@,
            Join::Left(table, constraint) => "LEFT JOIN "@ + table@ + " ON "@ + constraint@,
            Join::LeftOuter(table, constraint) => "LEFT OUTER JOIN "@ + table@ + " ON "@
                + constraint@,
        }
    }

    /// Renders this join, e.g. `INNER JOIN t ON t.id = u.t_id`.
    pub fn to_string(&self) -> (r: String)
        ensures
            r@ == self.text(),
    {
        let (keyword, table, constraint) = match self {
            Join::Inner(table, constraint) => ("INNER JOIN ", table, constraint),
            Join::Left(table, constraint) => ("LEFT JOIN ", table, constraint),
            Join::LeftOuter(table, constraint) => ("LEFT OUTER JOIN ", table, constraint),
        };
        let mut out = String::new();
        out.append(keyword);
        out.append(table.as_str());
        out.append(" ON ");
        out.append(constraint.as_str());
        out
    }
}

/// A sort key of an `ORDER BY` clause.
pub enum Order {
    Asc(String),
    Desc(String),
}

impl Order {
    /// The text of this sort key.
    pub open spec fn text(&self) -> Seq<char> {
        match self {
            Order::Asc(column) => column@ + " ASC"@,
            Order::Desc(column) => column@ + " DESC"@,
        }
    }

    /// Renders this sort key, e.g. `name DESC`.
    pub fn to_string(&self) -> (r: String)
        ensures
            r@ == self.text(),
    {
        let mut out = String::new();
        match self {
            Order::Asc(column) => {
                out.append(column.as_str());
                out.append(" ASC");
            },
            Order::Desc(column) => {
                out.append(column.as_str());
                out.append(" DESC");
            },
        }
        out
    }
}

/// The condition `field op $index`.
pub open spec fn comparison(field: Seq<char>, op: Seq<char>, index: nat) -> Seq<char> {
    field + op + placeholder(index)
}

/// Renders the condition `field op $index`.
pub fn comparison_text(field: &str, op: &str, index: usize) -> (r: String)
    ensures
        r@ == comparison(field@, op@, index as nat),
{
    let mut out = String::new();
    out.append(field);
    out.append(op);
    let p = placeholder_text(index);
    out.append(p.as_str());
    out
}

/// What every statement builder offers: binding values and rendering.
pub trait QueryBuilder: Sized {
    /// The values bound so far, in push order.
    spec fn params(&self) -> Seq<SqlValue>;

    /// The statement text as it renders now.
    spec fn query(&self) -> Seq<char>;

    /// Binds `value` and returns its 1-based placeholder index; the text is
    /// not changed.
    fn add_param(&mut self, value: SqlValue) -> (index: usize)
        requires
            old(self).params().len() < usize::MAX,
        ensures
            final(self).params() == old(self).params().push(value),
            index == final(self).params().len(),
            final(self).query() == old(self).query(),
    ;

    /// Renders the statement.
    fn get_query(&self) -> (r: String)
        ensures
            r@ == self.query(),
    ;

    /// Consumes the builder and hands out the bound values in placeholder
    /// order.
    fn get_ref_params(self) -> (r: Vec<SqlValue>)
        ensures
            r@ == self.params(),
    ;
}

/// A statement with a `WHERE` clause.
pub trait QueryBuilderWithWhere: QueryBuilder {
    /// Adds a raw condition.
    fn where_condition(&mut self, raw: &str) -> &mut Self;

    /// Adds the condition `field = $n`, binding `value` as `$n`.
    fn where_eq(&mut self, field: &str, value: SqlValue) -> &mut Self
        requires
            old(self).params().len() < usize::MAX,
    ;

    /// Adds the condition `field <> $n`, binding `value` as `$n`.
    fn where_ne(&mut self, field: &str, value: SqlValue) -> &mut Self
        requires
            old(self).params().len() < usize::MAX,
    ;
}

/// The views of the `(name, query)` pairs of `WITH` prologues.
pub open spec fn pair_views(v: Seq<(String, String)>) -> Seq<(Seq<char>, Seq<char>)> {
    v.map_values(|p: (String, String)| (p.0@, p.1@))
}

/// One prologue, `name AS (query)`.
pub open spec fn with_item(p: (Seq<char>, Seq<char>)) -> Seq<char> {
    p.0 + " AS ("@ + p.1 + ")"@
}

/// `WITH name1 AS (query1), name2 AS (query2)`, or no clause without
/// prologues.
pub open spec fn with_clause(items: Seq<(Seq<char>, Seq<char>)>) -> Option<Seq<char>> {
    list_clause("WITH "@, items.map_values(|p: (Seq<char>, Seq<char>)| with_item(p)), ", "@, ""@)
}

/// Renders the `WITH` prologues.
pub fn with_clause_text(items: &Vec<(String, String)>) -> (r: Option<String>)
    ensures
        opt_view(r) == with_clause(pair_views(items@)),
{
    let ghost target = pair_views(items@).map_values(|p: (Seq<char>, Seq<char>)| with_item(p));
    let mut rendered: Vec<String> = Vec::new();
    let n = items.len();
    let mut i: usize = 0;
    while i < n
        invariant
            n == items.len(),
            i <= n,
            target == pair_views(items@).map_values(|p: (Seq<char>, Seq<char>)| with_item(p)),
            crate::text::views(rendered@) == target.take(i as int),
        decreases n - i,
    {
        let ghost prev = rendered@;
        let item = &items[i];
        let mut out = String::new();
        out.append(item.0.as_str());
        out.append(" AS (");
        out.append(item.1.as_str());
        out.append(")");
        rendered.push(out);
        assert(crate::text::views(rendered@) == crate::text::views(prev).push(out@));
        assert(target.take(i as int + 1) == target.take(i as int).push(target[i as int]));
        i = i + 1;
    }
    assert(target.take(n as int) == target);
    list_clause_text("WITH ", &rendered, ", ", "")
}

/// A statement with a list of fields.
pub trait QueryWithFields {
    /// Appends one field.
    fn field(&mut self, field: &str) -> &mut Self;

    /// Appends several fields, in order.
    fn fields(&mut self, fields: Vec<&str>) -> &mut Self;
}

/// A statement with a `GROUP BY` clause.
pub trait QueryBuilderWithGroupBy {
    /// Appends one grouping expression.
    fn group_by(&mut self, field: &str) -> &mut Self;
}

/// A statement with a `LIMIT` clause.
pub trait QueryBuilderWithLimit: QueryBuilder {
    /// Binds `limit` and limits the rows to it; a later call replaces it.
    fn limit(&mut self, limit: i64) -> &mut Self
        requires
            old(self).params().len() < usize::MAX,
    ;
}

/// A statement with an `OFFSET` clause.
pub trait QueryBuilderWithOffset: QueryBuilder {
    /// Binds `offset` and skips that many rows; a later call replaces it.
    fn offset(&mut self, offset: i64) -> &mut Self
        requires
            old(self).params().len() < usize::MAX,
    ;
}

/// A statement with joins.
pub trait QueryBuilderWithJoin {
    /// Appends `INNER JOIN table_name ON relation`.
    fn inner_join(&mut self, table_name: &str, relation: &str) -> &mut Self;

    /// Appends `LEFT JOIN table_name ON relation`.
    fn left_join(&mut self, table_name: &str, relation: &str) -> &mut Self;

    /// Appends `LEFT OUTER JOIN table_name ON relation`.
    fn left_outer_join(&mut self, table_name: &str, relation: &str) -> &mut Self;
}

/// A statement with a `SET` clause.
pub trait QueryBuilderWithSet: QueryBuilder {
    /// Appends `field = $n`, binding `value` as `$n`.
    fn set(&mut self, field: &str, value: SqlValue) -> &mut Self
        requires
            old(self).params().len() < usize::MAX,
    ;

    /// Appends `field = value`, with `value` taken as SQL text.
    fn set_computed(&mut self, field: &str, value: &str) -> &mut Self;
}

/// A statement with a `VALUES` list.
pub trait QueryBuilderWithValues: QueryBuilder {
    /// Appends the placeholder `$n`, binding `value` as `$n`.
    fn value(&mut self, value: SqlValue) -> &mut Self
        requires
            old(self).params().len() < usize::MAX,
    ;

    /// Appends `fragment` with each `?` replaced by a placeholder, binding
    /// `values` to them in order.
    fn value_fragment(&mut self, fragment: &str, values: Vec<SqlValue>) -> &mut Self
        requires
            old(self).params().len() + markers(fragment@) <= usize::MAX,
    ;

    /// Appends the placeholder of `value` wrapped in calls of `wrapper_fn`,
    /// with the trailing arguments `args`.
    fn value_with_fn(&mut self, value: SqlValue, wrapper_fn: Vec<&str>, args: Vec<Option<&str>>) -> &mut Self
        requires
            old(self).params().len() < usize::MAX,
    ;
}

/// A statement with a `RETURNING` clause.
pub trait QueryBuilderWithReturningColumns {
    /// Appends the columns to return, in order.
    fn returning(&mut self, fields: Vec<&str>) -> &mut Self;
}

/// A statement with an `ON CONFLICT` clause.
pub trait QueryBuilderWithOnConflict {
    /// Sets the conflict target and the columns to update on conflict; a
    /// later call replaces both.
    fn on_conflict(&mut self, conflict_field: &str, update_fields: Vec<&str>) -> &mut Self;
}

/// A statement with extra source items in a `FROM` clause.
pub trait QueryBuilderWithFrom {
    /// Appends one source item.
    fn from(&mut self, item: &str) -> &mut Self;
}

/// A statement with an `ORDER BY` clause.
pub trait QueryBuilderWithOrder {
    /// Appends one sort key.
    fn order_by(&mut self, field: Order);
}

/// A statement with `WITH` prologues.
pub trait QueryBuilderWithQueries {
    /// Appends the prologue `name AS (query)`.
    fn with_query(&mut self, name: &str, query: &str) -> &mut Self;
}

} // verus!
