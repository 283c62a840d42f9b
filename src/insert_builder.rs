//! `INSERT` statements, with the upsert clause.

use crate::bucket::Bucket;
use crate::fragment::{binds_markers, expand, expand_fragment, markers, wrap, wrap_in_functions};
use crate::prelude::{
    with_item,
    pair_views, with_clause, with_clause_text, QueryBuilder, QueryBuilderWithOnConflict,
    QueryBuilderWithQueries, QueryBuilderWithReturningColumns, QueryBuilderWithValues,
    QueryWithFields,
};
use crate::text::{
    concat2, join, join_strings, list_clause, list_clause_text, opt_view, placeholder,
    placeholder_text, present, push_all, push_section, strs, views,
};
use crate::placeholders::{
    all_placeholders, all_plain, index_range, lemma_all_concat, lemma_expand,
    lemma_index_range_concat, lemma_index_range_push, lemma_join, lemma_list_clause,
    lemma_list_clause_plain, lemma_no_dollar_concat, lemma_plain_concat, lemma_no_dollar_join, lemma_placeholder,
    lemma_present_plain, lemma_wrap, no_dollar, placeholders, plain_calls, plain_fragment,
};
use crate::value::SqlValue;
use vstd::prelude::*;

verus! {

/// Builds `[WITH ...] INSERT INTO <table> [(<fields>)] [VALUES (<values>)]
/// [ON CONFLICT ...] [RETURNING <fields>]`.
pub struct InsertBuilder {
    with_queries: Vec<(String, String)>,
    table: String,
    fields: Vec<String>,
    values: Vec<String>,
    returning_fields: Vec<String>,
    upsert_field: Option<String>,
    upsert_set_fields: Vec<String>,
    params: Bucket,
}

/// What an `InsertBuilder` holds.
pub struct InsertView {
    pub with_queries: Seq<(Seq<char>, Seq<char>)>,
    pub table: Seq<char>,
    pub fields: Seq<Seq<char>>,
    pub values: Seq<Seq<char>>,
    pub returning_fields: Seq<Seq<char>>,
    pub upsert_field: Option<Seq<char>>,
    pub upsert_set_fields: Seq<Seq<char>>,
    pub params: Seq<SqlValue>,
}

impl View for InsertBuilder {
    type V = InsertView;

    closed spec fn view(&self) -> InsertView {
        InsertView {
            with_queries: pair_views(self.with_queries@),
            table: self.table@,
            fields: views(self.fields@),
            values: views(self.values@),
            returning_fields: views(self.returning_fields@),
            upsert_field: opt_view(self.upsert_field),
            upsert_set_fields: views(self.upsert_set_fields@),
            params: self.params@,
        }
    }
}

/// The assignment `column = EXCLUDED.column`.
pub open spec fn excluded_assignment(column: Seq<char>) -> Seq<char> {
    column + " = EXCLUDED."@ + column
}

/// The upsert clause: none without a target; `DO NOTHING` with a target and
/// no columns to update; else `DO UPDATE SET` each column from `EXCLUDED`.
pub open spec fn upsert_clause(target: Option<Seq<char>>, columns: Seq<Seq<char>>) -> Option<
    Seq<char>,
> {
    match target {
        None => None,
        Some(t) => if columns.len() > 0 {
            Some(
                "ON CONFLICT ("@ + t + ") DO UPDATE SET "@ + join(
                    columns.map_values(|c: Seq<char>| excluded_assignment(c)),
                    ", "@,
                ),
            )
        } else {
            Some("ON CONFLICT ("@ + t + ") DO NOTHING"@)
        },
    }
}

impl InsertView {
    /// The sections of the statement, in order, each present one once.
    pub open spec fn sections(self) -> Seq<Seq<char>> {
        present(with_clause(self.with_queries)) + seq!["INSERT INTO "@ + self.table] + present(
            list_clause("("@, self.fields, ", "@, ")"@),
        ) + present(list_clause("VALUES ("@, self.values, ", "@, ")"@)) + present(
            upsert_clause(self.upsert_field, self.upsert_set_fields),
        ) + present(list_clause("RETURNING "@, self.returning_fields, ", "@, ""@))
    }

    /// The statement text.
    pub open spec fn query(self) -> Seq<char> {
        join(self.sections(), " "@)
    }

    /// A builder for `table` with every clause empty.
    pub open spec fn fresh(table: Seq<char>) -> InsertView {
        InsertView {
            with_queries: seq![],
            table: table,
            fields: seq![],
            values: seq![],
            returning_fields: seq![],
            upsert_field: None,
            upsert_set_fields: seq![],
            params: seq![],
        }
    }

    /// The names and texts given to the builder hold no `$`, and the
    /// placeholders of the values, read left to right, are `$1` to `$n` for
    /// the `n` bound values.
    pub open spec fn well_numbered(self) -> bool {
        &&& no_dollar(self.table)
        &&& forall|i: int|
            0 <= i < self.with_queries.len() ==> no_dollar(#[trigger] self.with_queries[i].0)
                && no_dollar(self.with_queries[i].1)
        &&& all_plain(self.fields)
        &&& all_plain(self.returning_fields)
        &&& (self.upsert_field is Some ==> no_dollar(self.upsert_field->0))
        &&& all_plain(self.upsert_set_fields)
        &&& all_placeholders(self.values) == index_range(1, self.params.len())
    }
}

/// An insert builder with no clause set renders `INSERT INTO <table>`.
pub proof fn lemma_insert_fresh(table: Seq<char>)
    ensures
        InsertView::fresh(table).query() == "INSERT INTO "@ + table,
{
    let v = InsertView::fresh(table);
    assert(with_clause(v.with_queries) is None);
    assert(v.sections() =~= seq!["INSERT INTO "@ + table]);
}

/// In a well-numbered insert statement the placeholders, read left to right,
/// are `$1`, `$2`, ... up to the number of bound values: the `n`-th
/// placeholder stands for the `n`-th value that `get_ref_params` hands out.
pub proof fn lemma_insert_placeholders(v: InsertView)
    requires
        v.well_numbered(),
    ensures
        placeholders(v.query()) == index_range(1, v.params.len()),
{
    reveal_strlit(" ");
    reveal_strlit(", ");
    reveal_strlit("");
    reveal_strlit("(");
    reveal_strlit(")");
    reveal_strlit("WITH ");
    reveal_strlit(" AS (");
    reveal_strlit("INSERT INTO ");
    reveal_strlit("VALUES (");
    reveal_strlit("ON CONFLICT (");
    reveal_strlit(") DO UPDATE SET ");
    reveal_strlit(" = EXCLUDED.");
    reveal_strlit(") DO NOTHING");
    reveal_strlit("RETURNING ");
    let w = present(with_clause(v.with_queries));
    let h = seq!["INSERT INTO "@ + v.table];
    let f = present(list_clause("("@, v.fields, ", "@, ")"@));
    let vs = present(list_clause("VALUES ("@, v.values, ", "@, ")"@));
    let u = present(upsert_clause(v.upsert_field, v.upsert_set_fields));
    let r = present(list_clause("RETURNING "@, v.returning_fields, ", "@, ""@));
    lemma_join(v.sections(), " "@);
    lemma_all_concat(w, h);
    lemma_all_concat(w + h, f);
    lemma_all_concat(w + h + f, vs);
    lemma_all_concat(w + h + f + vs, u);
    lemma_all_concat(w + h + f + vs + u, r);
    let items = v.with_queries.map_values(|p: (Seq<char>, Seq<char>)| with_item(p));
    assert forall|i: int| 0 <= i < items.len() implies no_dollar(#[trigger] items[i]) by {
        let p = v.with_queries[i];
        lemma_no_dollar_concat(p.0, " AS ("@);
        lemma_no_dollar_concat(p.0 + " AS ("@, p.1);
        lemma_no_dollar_concat(p.0 + " AS ("@ + p.1, ")"@);
    }
    lemma_list_clause_plain("WITH "@, items, ", "@, ""@);
    lemma_no_dollar_concat("INSERT INTO "@, v.table);
    lemma_present_plain(Some("INSERT INTO "@ + v.table));
    lemma_list_clause_plain("("@, v.fields, ", "@, ")"@);
    lemma_list_clause("VALUES ("@, v.values, ", "@, ")"@);
    lemma_list_clause_plain("RETURNING "@, v.returning_fields, ", "@, ""@);
    if let Some(t) = v.upsert_field {
        lemma_no_dollar_concat("ON CONFLICT ("@, t);
        if v.upsert_set_fields.len() > 0 {
            let cols = v.upsert_set_fields.map_values(|c: Seq<char>| excluded_assignment(c));
            assert forall|i: int| 0 <= i < cols.len() implies no_dollar(#[trigger] cols[i]) by {
                let c = v.upsert_set_fields[i];
                lemma_no_dollar_concat(c, " = EXCLUDED."@);
                lemma_no_dollar_concat(c + " = EXCLUDED."@, c);
            }
            lemma_no_dollar_join(cols, ", "@);
            lemma_no_dollar_concat("ON CONFLICT ("@ + t, ") DO UPDATE SET "@);
            lemma_no_dollar_concat("ON CONFLICT ("@ + t + ") DO UPDATE SET "@, join(cols, ", "@));
        } else {
            lemma_no_dollar_concat("ON CONFLICT ("@ + t, ") DO NOTHING"@);
        }
    }
    lemma_present_plain(upsert_clause(v.upsert_field, v.upsert_set_fields));
    assert(h == present(Some("INSERT INTO "@ + v.table)));
}

impl InsertBuilder {
    /// A builder for inserting into `from`, with every clause empty.
    pub fn new(from: &str) -> (r: InsertBuilder)
        ensures
            r@ == InsertView::fresh(from@),
            no_dollar(from@) ==> r@.well_numbered(),
    {
        let r = InsertBuilder {
            with_queries: Vec::new(),
            table: from.to_owned(),
            fields: Vec::new(),
            values: Vec::new(),
            returning_fields: Vec::new(),
            upsert_field: None,
            upsert_set_fields: Vec::new(),
            params: Bucket::new(),
        };
        assert(views(r.fields@) == Seq::<Seq<char>>::empty());
        assert(views(r.values@) == Seq::<Seq<char>>::empty());
        assert(views(r.returning_fields@) == Seq::<Seq<char>>::empty());
        assert(views(r.upsert_set_fields@) == Seq::<Seq<char>>::empty());
        assert(pair_views(r.with_queries@) == Seq::<(Seq<char>, Seq<char>)>::empty());
        assert(index_range(1, 0) =~= Seq::<nat>::empty());
        r
    }

    fn with_queries_to_query(&self) -> (r: Option<String>)
        ensures
            opt_view(r) == with_clause(self@.with_queries),
    {
        with_clause_text(&self.with_queries)
    }

    fn from_to_query(&self) -> (r: String)
        ensures
            r@ == "INSERT INTO "@ + self@.table,
    {
        concat2("INSERT INTO ", self.table.as_str())
    }

    fn fields_to_query(&self) -> (r: Option<String>)
        ensures
            opt_view(r) == list_clause("("@, self@.fields, ", "@, ")"@),
    {
        list_clause_text("(", &self.fields, ", ", ")")
    }

    fn values_to_query(&self) -> (r: Option<String>)
        ensures
            opt_view(r) == list_clause("VALUES ("@, self@.values, ", "@, ")"@),
    {
        list_clause_text("VALUES (", &self.values, ", ", ")")
    }

    fn on_conflict_query(&self) -> (r: Option<String>)
        ensures
            opt_view(r) == upsert_clause(self@.upsert_field, self@.upsert_set_fields),
    {
        match &self.upsert_field {
            None => None,
            Some(target) => {
                let mut out = String::new();
                out.append("ON CONFLICT (");
                out.append(target.as_str());
                if self.upsert_set_fields.len() > 0 {
                    let ghost cols = self@.upsert_set_fields;
                    let ghost target_items = cols.map_values(
                        |c: Seq<char>| excluded_assignment(c),
                    );
                    let mut assignments: Vec<String> = Vec::new();
                    let n = self.upsert_set_fields.len();
                    let mut i: usize = 0;
                    while i < n
                        invariant
                            n == self.upsert_set_fields.len(),
                            cols == self@.upsert_set_fields,
                            target_items == cols.map_values(
                                |c: Seq<char>| excluded_assignment(c),
                            ),
                            i <= n,
                            views(assignments@) == target_items.take(i as int),
                        decreases n - i,
                    {
                        let ghost prev = assignments@;
                        let column = self.upsert_set_fields[i].as_str();
                        let mut a = String::new();
                        a.append(column);
                        a.append(" = EXCLUDED.");
                        a.append(column);
                        assignments.push(a);
                        assert(views(assignments@) == views(prev).push(a@));
                        assert(target_items.take(i as int + 1) == target_items.take(i as int).push(
                            target_items[i as int],
                        ));
                        i = i + 1;
                    }
                    assert(target_items.take(n as int) == target_items);
                    out.append(") DO UPDATE SET ");
                    let body = join_strings(&assignments, ", ");
                    out.append(body.as_str());
                } else {
                    out.append(") DO NOTHING");
                }
                Some(out)
            },
        }
    }

    fn returning_fields_to_query(&self) -> (r: Option<String>)
        ensures
            opt_view(r) == list_clause("RETURNING "@, self@.returning_fields, ", "@, ""@),
    {
        list_clause_text("RETURNING ", &self.returning_fields, ", ", "")
    }

    fn push_value(&mut self, v: String)
        ensures
            final(self)@ == (InsertView { values: old(self)@.values.push(v@), ..old(self)@ }),
    {
        self.values.push(v);
        assert(views(self.values@) == views(old(self).values@).push(v@));
    }
}

impl QueryBuilder for InsertBuilder {
    open spec fn params(&self) -> Seq<SqlValue> {
        self@.params
    }

    open spec fn query(&self) -> Seq<char> {
        self@.query()
    }

    fn add_param(&mut self, value: SqlValue) -> (index: usize)
        ensures
            final(self)@ == (InsertView { params: old(self)@.params.push(value), ..old(self)@ }),
    {
        self.params.push(value)
    }

    fn get_query(&self) -> (r: String) {
        let mut sections: Vec<String> = Vec::new();
        push_section(&mut sections, self.with_queries_to_query());
        sections.push(self.from_to_query());
        push_section(&mut sections, self.fields_to_query());
        push_section(&mut sections, self.values_to_query());
        push_section(&mut sections, self.on_conflict_query());
        push_section(&mut sections, self.returning_fields_to_query());
        assert(views(sections@) == self@.sections());
        join_strings(&sections, " ")
    }

    fn get_ref_params(self) -> (r: Vec<SqlValue>) {
        self.params.into_values()
    }
}

impl QueryWithFields for InsertBuilder {
    fn field(&mut self, field: &str) -> (r: &mut Self)
        ensures
            (*r)@ == (InsertView { fields: old(self)@.fields.push(field@), ..old(self)@ }),
            old(self)@.well_numbered() && no_dollar(field@) ==> (*r)@.well_numbered(),
            *final(self) == *final(r),
    {
        self.fields.push(field.to_owned());
        assert(views(self.fields@) == views(old(self).fields@).push(field@));
        self
    }

    fn fields(&mut self, fields: Vec<&str>) -> (r: &mut Self)
        ensures
            (*r)@ == (InsertView { fields: old(self)@.fields + strs(fields@), ..old(self)@ }),
            old(self)@.well_numbered() && all_plain(strs(fields@)) ==> (*r)@.well_numbered(),
            *final(self) == *final(r),
    {
        push_all(&mut self.fields, fields);
        proof {
            if old(self)@.well_numbered() && all_plain(strs(fields@)) {
                lemma_plain_concat(old(self)@.fields, strs(fields@));
            }
        }
        self
    }
}

impl QueryBuilderWithValues for InsertBuilder {
    fn value(&mut self, value: SqlValue) -> (r: &mut Self)
        ensures
            (*r)@ == (InsertView {
                values: old(self)@.values.push(placeholder(old(self)@.params.len() + 1)),
                params: old(self)@.params.push(value),
                ..old(self)@
            }),
            old(self)@.well_numbered() ==> (*r)@.well_numbered(),
            *final(self) == *final(r),
    {
        let index = self.params.push(value);
        self.push_value(placeholder_text(index));
        proof {
            let n = old(self)@.params.len();
            lemma_placeholder(n + 1);
            lemma_index_range_push(1, n);
            assert(self@.values.drop_last() == old(self)@.values);
            assert(all_placeholders(self@.values) == all_placeholders(old(self)@.values)
                + placeholders(self@.values.last()));
            assert(index_range(1, n).push(n + 1) == index_range(1, n) + seq![n + 1]);
        }
        self
    }

    fn value_fragment(&mut self, fragment: &str, values: Vec<SqlValue>) -> (r: &mut Self)
        ensures
            (*r)@ == (InsertView {
                values: old(self)@.values.push(expand(fragment@, old(self)@.params.len() + 1)),
                params: (*r)@.params,
                ..old(self)@
            }),
            (*r)@.params.len() == old(self)@.params.len() + markers(fragment@),
            (*r)@.params.subrange(0, old(self)@.params.len() as int) == old(self)@.params,
            binds_markers(
                (*r)@.params.skip(old(self)@.params.len() as int),
                values@,
                markers(fragment@),
            ),
            old(self)@.well_numbered() && plain_fragment(fragment@) ==> (*r)@.well_numbered(),
            *final(self) == *final(r),
    {
        let text = expand_fragment(&mut self.params, fragment, values);
        self.push_value(text);
        proof {
            let n = old(self)@.params.len();
            if plain_fragment(fragment@) {
                lemma_expand(fragment@, n + 1);
            }
            lemma_index_range_concat(1, n, markers(fragment@));
            assert(self@.values.drop_last() == old(self)@.values);
        }
        self
    }

    fn value_with_fn(&mut self, value: SqlValue, wrapper_fn: Vec<&str>, args: Vec<Option<&str>>) -> (r: &mut Self)
        ensures
            (*r)@ == (InsertView {
                values: old(self)@.values.push(
                    wrap(wrapper_fn@, args@, placeholder(old(self)@.params.len() + 1)),
                ),
                params: old(self)@.params.push(value),
                ..old(self)@
            }),
            old(self)@.well_numbered() && plain_calls(wrapper_fn@, args@) ==> (*r)@.well_numbered(),
            *final(self) == *final(r),
    {
        let ghost fns = wrapper_fn@;
        let ghost trailing = args@;
        let index = self.params.push(value);
        self.push_value(wrap_in_functions(index, wrapper_fn, args));
        proof {
            let n = old(self)@.params.len();
            if plain_calls(fns, trailing) {
                lemma_wrap(fns, trailing, placeholder(n + 1));
            }
            lemma_placeholder(n + 1);
            lemma_index_range_push(1, n);
            assert(self@.values.drop_last() == old(self)@.values);
            assert(all_placeholders(self@.values) == all_placeholders(old(self)@.values)
                + placeholders(self@.values.last()));
            assert(index_range(1, n).push(n + 1) == index_range(1, n) + seq![n + 1]);
        }
        self
    }
}

impl QueryBuilderWithReturningColumns for InsertBuilder {
    fn returning(&mut self, fields: Vec<&str>) -> (r: &mut Self)
        ensures
            (*r)@ == (InsertView {
                returning_fields: old(self)@.returning_fields + strs(fields@),
                ..old(self)@
            }),
            old(self)@.well_numbered() && all_plain(strs(fields@)) ==> (*r)@.well_numbered(),
            *final(self) == *final(r),
    {
        push_all(&mut self.returning_fields, fields);
        proof {
            if old(self)@.well_numbered() && all_plain(strs(fields@)) {
                lemma_plain_concat(old(self)@.returning_fields, strs(fields@));
            }
        }
        self
    }
}

impl QueryBuilderWithQueries for InsertBuilder {
    fn with_query(&mut self, name: &str, query: &str) -> (r: &mut Self)
        ensures
            (*r)@ == (InsertView {
                with_queries: old(self)@.with_queries.push((name@, query@)),
                ..old(self)@
            }),
            old(self)@.well_numbered() && no_dollar(name@) && no_dollar(query@) ==> (
            *r)@.well_numbered(),
            *final(self) == *final(r),
    {
        self.with_queries.push((name.to_owned(), query.to_owned()));
        assert(pair_views(self.with_queries@) == pair_views(old(self).with_queries@).push(
            (name@, query@),
        ));
        self
    }
}

impl QueryBuilderWithOnConflict for InsertBuilder {
    fn on_conflict(&mut self, conflict_field: &str, update_fields: Vec<&str>) -> (r: &mut Self)
        ensures
            (*r)@ == (InsertView {
                upsert_field: Some(conflict_field@),
                upsert_set_fields: strs(update_fields@),
                ..old(self)@
            }),
            old(self)@.well_numbered() && no_dollar(conflict_field@) && all_plain(
                strs(update_fields@),
            ) ==> (*r)@.well_numbered(),
            *final(self) == *final(r),
    {
        self.upsert_field = Some(conflict_field.to_owned());
        let mut columns: Vec<String> = Vec::new();
        push_all(&mut columns, update_fields);
        self.upsert_set_fields = columns;
        self
    }
}

} // verus!
