//! `UPDATE` statements.

use crate::bucket::Bucket;
use crate::prelude::{
    with_item, comparison, comparison_text, pair_views, with_clause, with_clause_text, QueryBuilder,
    QueryBuilderWithFrom, QueryBuilderWithQueries, QueryBuilderWithReturningColumns,
    QueryBuilderWithSet, QueryBuilderWithWhere,
};
use crate::text::{
    concat2, join, join_strings, list_clause, list_clause_text, opt_view, present, push_all,
    push_section, strs, views,
};
use crate::placeholders::{
    all_placeholders, all_plain, is_numbering, lemma_all_concat, lemma_all_push,
    lemma_all_push_plain, lemma_comparison, lemma_join, lemma_list_clause, lemma_list_clause_plain,
    lemma_no_dollar_concat, lemma_numbering_insert, lemma_plain_concat, lemma_present_plain,
    no_dollar, placeholders,
};
use crate::value::SqlValue;
use vstd::prelude::*;

verus! {

/// Builds `[WITH ...] UPDATE <table> [SET ...] [FROM ...] [RETURNING ...]
/// [WHERE ...]`.
pub struct UpdateBuilder {
    with_queries: Vec<(String, String)>,
    table: String,
    fields: Vec<String>,
    returning_fields: Vec<String>,
    from_items: Vec<String>,
    conditions: Vec<String>,
    params: Bucket,
}

/// What an `UpdateBuilder` holds; `fields` are the assignments of `SET`.
pub struct UpdateView {
    pub with_queries: Seq<(Seq<char>, Seq<char>)>,
    pub table: Seq<char>,
    pub fields: Seq<Seq<char>>,
    pub returning_fields: Seq<Seq<char>>,
    pub from_items: Seq<Seq<char>>,
    pub conditions: Seq<Seq<char>>,
    pub params: Seq<SqlValue>,
}

impl View for UpdateBuilder {
    type V = UpdateView;

    closed spec fn view(&self) -> UpdateView {
        UpdateView {
            with_queries: pair_views(self.with_queries@),
            table: self.table@,
            fields: views(self.fields@),
            returning_fields: views(self.returning_fields@),
            from_items: views(self.from_items@),
            conditions: views(self.conditions@),
            params: self.params@,
        }
    }
}

impl UpdateView {
    /// The sections of the statement, in order, each present one once.
    pub open spec fn sections(self) -> Seq<Seq<char>> {
        present(with_clause(self.with_queries)) + seq!["UPDATE "@ + self.table] + present(
            list_clause("SET "@, self.fields, ", "@, ""@),
        ) + present(list_clause("FROM "@, self.from_items, ", "@, ""@)) + present(
            list_clause("RETURNING "@, self.returning_fields, ", "@, ""@),
        ) + present(list_clause("WHERE "@, self.conditions, " AND "@, ""@))
    }

    /// The statement text.
    pub open spec fn query(self) -> Seq<char> {
        join(self.sections(), " "@)
    }

    /// A builder for `table` with every clause empty.
    pub open spec fn fresh(table: Seq<char>) -> UpdateView {
        UpdateView {
            with_queries: seq![],
            table: table,
            fields: seq![],
            returning_fields: seq![],
            from_items: seq![],
            conditions: seq![],
            params: seq![],
        }
    }

    /// The names and texts given to the builder hold no `$` but in the
    /// placeholders it wrote, and those of the assignments and conditions
    /// together number the bound values: each of `$1` to `$n` once.
    pub open spec fn well_numbered(self) -> bool {
        &&& no_dollar(self.table)
        &&& forall|i: int|
            0 <= i < self.with_queries.len() ==> no_dollar(#[trigger] self.with_queries[i].0)
                && no_dollar(self.with_queries[i].1)
        &&& all_plain(self.returning_fields)
        &&& all_plain(self.from_items)
        &&& is_numbering(
            all_placeholders(self.fields) + all_placeholders(self.conditions),
            self.params.len(),
        )
    }
}

/// An update builder with no clause set renders `UPDATE <table>`.
pub proof fn lemma_update_fresh(table: Seq<char>)
    ensures
        UpdateView::fresh(table).query() == "UPDATE "@ + table,
{
    let v = UpdateView::fresh(table);
    assert(with_clause(v.with_queries) is None);
    assert(v.sections() =~= seq!["UPDATE "@ + table]);
}

/// A well-numbered update statement holds one placeholder per bound value:
/// each of `$1` to `$n` appears once, and `$k` stands for the `k`-th value
/// that `get_ref_params` hands out.
pub proof fn lemma_update_placeholders(v: UpdateView)
    requires
        v.well_numbered(),
    ensures
        is_numbering(placeholders(v.query()), v.params.len()),
        placeholders(v.query()) == all_placeholders(v.fields) + all_placeholders(v.conditions),
{
    reveal_strlit(" ");
    reveal_strlit(", ");
    reveal_strlit("");
    reveal_strlit(")");
    reveal_strlit(" AND ");
    reveal_strlit("WITH ");
    reveal_strlit(" AS (");
    reveal_strlit("UPDATE ");
    reveal_strlit("SET ");
    reveal_strlit("FROM ");
    reveal_strlit("RETURNING ");
    reveal_strlit("WHERE ");
    let w = present(with_clause(v.with_queries));
    let h = seq!["UPDATE "@ + v.table];
    let st = present(list_clause("SET "@, v.fields, ", "@, ""@));
    let f = present(list_clause("FROM "@, v.from_items, ", "@, ""@));
    let r = present(list_clause("RETURNING "@, v.returning_fields, ", "@, ""@));
    let wh = present(list_clause("WHERE "@, v.conditions, " AND "@, ""@));
    lemma_join(v.sections(), " "@);
    lemma_all_concat(w, h);
    lemma_all_concat(w + h, st);
    lemma_all_concat(w + h + st, f);
    lemma_all_concat(w + h + st + f, r);
    lemma_all_concat(w + h + st + f + r, wh);
    let items = v.with_queries.map_values(|p: (Seq<char>, Seq<char>)| with_item(p));
    assert forall|i: int| 0 <= i < items.len() implies no_dollar(#[trigger] items[i]) by {
        let p = v.with_queries[i];
        lemma_no_dollar_concat(p.0, " AS ("@);
        lemma_no_dollar_concat(p.0 + " AS ("@, p.1);
        lemma_no_dollar_concat(p.0 + " AS ("@ + p.1, ")"@);
    }
    lemma_list_clause_plain("WITH "@, items, ", "@, ""@);
    lemma_no_dollar_concat("UPDATE "@, v.table);
    lemma_present_plain(Some("UPDATE "@ + v.table));
    assert(h == present(Some("UPDATE "@ + v.table)));
    lemma_list_clause("SET "@, v.fields, ", "@, ""@);
    lemma_list_clause_plain("FROM "@, v.from_items, ", "@, ""@);
    lemma_list_clause_plain("RETURNING "@, v.returning_fields, ", "@, ""@);
    lemma_list_clause("WHERE "@, v.conditions, " AND "@, ""@);
}

impl UpdateBuilder {
    /// A builder for updating `from`, with every clause empty.
    pub fn new(from: &str) -> (r: UpdateBuilder)
        ensures
            r@ == UpdateView::fresh(from@),
            no_dollar(from@) ==> r@.well_numbered(),
    {
        let r = UpdateBuilder {
            with_queries: Vec::new(),
            table: from.to_owned(),
            fields: Vec::new(),
            from_items: Vec::new(),
            returning_fields: Vec::new(),
            conditions: Vec::new(),
            params: Bucket::new(),
        };
        assert(views(r.fields@) == Seq::<Seq<char>>::empty());
        assert(views(r.from_items@) == Seq::<Seq<char>>::empty());
        assert(views(r.returning_fields@) == Seq::<Seq<char>>::empty());
        assert(views(r.conditions@) == Seq::<Seq<char>>::empty());
        assert(all_placeholders(Seq::<Seq<char>>::empty()) + all_placeholders(
            Seq::<Seq<char>>::empty(),
        ) =~= Seq::<nat>::empty());
        assert(pair_views(r.with_queries@) == Seq::<(Seq<char>, Seq<char>)>::empty());
        r
    }

    /// The values bound so far, in placeholder order.
    pub fn get_values(&mut self) -> (r: &Vec<SqlValue>)
        ensures
            r@ == old(self)@.params,
            *final(self) == *old(self),
    {
        self.params.values()
    }

    fn with_queries_to_query(&self) -> (r: Option<String>)
        ensures
            opt_view(r) == with_clause(self@.with_queries),
    {
        with_clause_text(&self.with_queries)
    }

    fn table_to_query(&self) -> (r: String)
        ensures
            r@ == "UPDATE "@ + self@.table,
    {
        concat2("UPDATE ", self.table.as_str())
    }

    fn set_to_query(&self) -> (r: Option<String>)
        ensures
            opt_view(r) == list_clause("SET "@, self@.fields, ", "@, ""@),
    {
        list_clause_text("SET ", &self.fields, ", ", "")
    }

    fn from_items_to_query(&self) -> (r: Option<String>)
        ensures
            opt_view(r) == list_clause("FROM "@, self@.from_items, ", "@, ""@),
    {
        list_clause_text("FROM ", &self.from_items, ", ", "")
    }

    fn returning_fields_to_query(&self) -> (r: Option<String>)
        ensures
            opt_view(r) == list_clause("RETURNING "@, self@.returning_fields, ", "@, ""@),
    {
        list_clause_text("RETURNING ", &self.returning_fields, ", ", "")
    }

    fn where_to_query(&self) -> (r: Option<String>)
        ensures
            opt_view(r) == list_clause("WHERE "@, self@.conditions, " AND "@, ""@),
    {
        list_clause_text("WHERE ", &self.conditions, " AND ", "")
    }

    fn push_condition(&mut self, c: String)
        ensures
            final(self)@ == (UpdateView { conditions: old(self)@.conditions.push(c@), ..old(self)@ }),
    {
        self.conditions.push(c);
        assert(views(self.conditions@) == views(old(self).conditions@).push(c@));
    }

    fn push_assignment(&mut self, a: String)
        ensures
            final(self)@ == (UpdateView { fields: old(self)@.fields.push(a@), ..old(self)@ }),
    {
        self.fields.push(a);
        assert(views(self.fields@) == views(old(self).fields@).push(a@));
    }
}

impl QueryBuilder for UpdateBuilder {
    open spec fn params(&self) -> Seq<SqlValue> {
        self@.params
    }

    open spec fn query(&self) -> Seq<char> {
        self@.query()
    }

    fn add_param(&mut self, value: SqlValue) -> (index: usize)
        ensures
            final(self)@ == (UpdateView { params: old(self)@.params.push(value), ..old(self)@ }),
    {
        self.params.push(value)
    }

    fn get_query(&self) -> (r: String) {
        let mut sections: Vec<String> = Vec::new();
        push_section(&mut sections, self.with_queries_to_query());
        sections.push(self.table_to_query());
        push_section(&mut sections, self.set_to_query());
        push_section(&mut sections, self.from_items_to_query());
        push_section(&mut sections, self.returning_fields_to_query());
        push_section(&mut sections, self.where_to_query());
        assert(views(sections@) == self@.sections());
        join_strings(&sections, " ")
    }

    fn get_ref_params(self) -> (r: Vec<SqlValue>) {
        self.params.into_values()
    }
}

impl QueryBuilderWithWhere for UpdateBuilder {
    fn where_condition(&mut self, raw: &str) -> (r: &mut Self)
        ensures
            (*r)@ == (UpdateView { conditions: old(self)@.conditions.push(raw@), ..old(self)@ }),
            old(self)@.well_numbered() && no_dollar(raw@) ==> (*r)@.well_numbered(),
            *final(self) == *final(r),
    {
        self.push_condition(raw.to_owned());
        proof {
            if no_dollar(raw@) {
                lemma_all_push_plain(old(self)@.conditions, raw@);
            }
        }
        self
    }

    fn where_eq(&mut self, field: &str, value: SqlValue) -> (r: &mut Self)
        ensures
            (*r)@ == (UpdateView {
                conditions: old(self)@.conditions.push(
                    comparison(field@, " = "@, old(self)@.params.len() + 1),
                ),
                params: old(self)@.params.push(value),
                ..old(self)@
            }),
            old(self)@.well_numbered() && no_dollar(field@) ==> (*r)@.well_numbered(),
            *final(self) == *final(r),
    {
        let index = self.params.push(value);
        self.push_condition(comparison_text(field, " = ", index));
        proof {
            let n = old(self)@.params.len();
            let c = comparison(field@, " = "@, n + 1);
            reveal_strlit(" = ");
            if old(self)@.well_numbered() && no_dollar(field@) {
                lemma_comparison(field@, " = "@, n + 1);
                lemma_all_push(old(self)@.conditions, c);
                let a = all_placeholders(old(self)@.fields) + all_placeholders(old(self)@.conditions);
                lemma_numbering_insert(a, Seq::<nat>::empty(), n);
                assert(a + Seq::<nat>::empty() == a);
                assert(a.push(n + 1) + Seq::<nat>::empty() == all_placeholders(old(self)@.fields)
                    + all_placeholders(self@.conditions));
            }
        }
        self
    }

    fn where_ne(&mut self, field: &str, value: SqlValue) -> (r: &mut Self)
        ensures
            (*r)@ == (UpdateView {
                conditions: old(self)@.conditions.push(
                    comparison(field@, " <> "@, old(self)@.params.len() + 1),
                ),
                params: old(self)@.params.push(value),
                ..old(self)@
            }),
            old(self)@.well_numbered() && no_dollar(field@) ==> (*r)@.well_numbered(),
            *final(self) == *final(r),
    {
        let index = self.params.push(value);
        self.push_condition(comparison_text(field, " <> ", index));
        proof {
            let n = old(self)@.params.len();
            let c = comparison(field@, " <> "@, n + 1);
            reveal_strlit(" <> ");
            if old(self)@.well_numbered() && no_dollar(field@) {
                lemma_comparison(field@, " <> "@, n + 1);
                lemma_all_push(old(self)@.conditions, c);
                let a = all_placeholders(old(self)@.fields) + all_placeholders(old(self)@.conditions);
                lemma_numbering_insert(a, Seq::<nat>::empty(), n);
                assert(a + Seq::<nat>::empty() == a);
                assert(a.push(n + 1) + Seq::<nat>::empty() == all_placeholders(old(self)@.fields)
                    + all_placeholders(self@.conditions));
            }
        }
        self
    }
}

impl QueryBuilderWithSet for UpdateBuilder {
    fn set(&mut self, field: &str, value: SqlValue) -> (r: &mut Self)
        ensures
            (*r)@ == (UpdateView {
                fields: old(self)@.fields.push(
                    comparison(field@, " = "@, old(self)@.params.len() + 1),
                ),
                params: old(self)@.params.push(value),
                ..old(self)@
            }),
            old(self)@.well_numbered() && no_dollar(field@) ==> (*r)@.well_numbered(),
            *final(self) == *final(r),
    {
        let index = self.params.push(value);
        self.push_assignment(comparison_text(field, " = ", index));
        proof {
            let n = old(self)@.params.len();
            let c = comparison(field@, " = "@, n + 1);
            reveal_strlit(" = ");
            if old(self)@.well_numbered() && no_dollar(field@) {
                lemma_comparison(field@, " = "@, n + 1);
                lemma_all_push(old(self)@.fields, c);
                lemma_numbering_insert(
                    all_placeholders(old(self)@.fields),
                    all_placeholders(old(self)@.conditions),
                    n,
                );
                assert(all_placeholders(old(self)@.fields) + seq![n + 1] == all_placeholders(
                    old(self)@.fields,
                ).push(n + 1));
            }
        }
        self
    }

    fn set_computed(&mut self, field: &str, value: &str) -> (r: &mut Self)
        ensures
            (*r)@ == (UpdateView {
                fields: old(self)@.fields.push(field@ + " = "@ + value@),
                ..old(self)@
            }),
            old(self)@.well_numbered() && no_dollar(field@) && no_dollar(value@) ==> (
            *r)@.well_numbered(),
            *final(self) == *final(r),
    {
        let mut a = String::new();
        a.append(field);
        a.append(" = ");
        a.append(value);
        self.push_assignment(a);
        proof {
            reveal_strlit(" = ");
            if no_dollar(field@) && no_dollar(value@) {
                lemma_no_dollar_concat(field@, " = "@);
                lemma_no_dollar_concat(field@ + " = "@, value@);
                lemma_all_push_plain(old(self)@.fields, a@);
            }
        }
        self
    }
}

impl QueryBuilderWithQueries for UpdateBuilder {
    fn with_query(&mut self, name: &str, query: &str) -> (r: &mut Self)
        ensures
            (*r)@ == (UpdateView {
                with_queries: old(self)@.with_queries.push((name@, query@)),
                ..old(self)@
            }),
            old(self)@.well_numbered() && no_dollar(name@) && no_dollar(query@) ==> (
            *r)@.well_numbered(),
            *final(self) == *final(r),
    {
        self.with_queries.push((name.to_owned(), query.to_owned()));
        assert(pair_views(self.with_queries@) == pair_views(old(self).with_queries@).push(
            (name@, query@),
        ));
        self
    }
}

impl QueryBuilderWithReturningColumns for UpdateBuilder {
    fn returning(&mut self, fields: Vec<&str>) -> (r: &mut Self)
        ensures
            (*r)@ == (UpdateView {
                returning_fields: old(self)@.returning_fields + strs(fields@),
                ..old(self)@
            }),
            old(self)@.well_numbered() && all_plain(strs(fields@)) ==> (*r)@.well_numbered(),
            *final(self) == *final(r),
    {
        push_all(&mut self.returning_fields, fields);
        proof {
            if old(self)@.well_numbered() && all_plain(strs(fields@)) {
                lemma_plain_concat(old(self)@.returning_fields, strs(fields@));
            }
        }
        self
    }
}

impl QueryBuilderWithFrom for UpdateBuilder {
    fn from(&mut self, item: &str) -> (r: &mut Self)
        ensures
            (*r)@ == (UpdateView { from_items: old(self)@.from_items.push(item@), ..old(self)@ }),
            old(self)@.well_numbered() && no_dollar(item@) ==> (*r)@.well_numbered(),
            *final(self) == *final(r),
    {
        self.from_items.push(item.to_owned());
        assert(views(self.from_items@) == views(old(self).from_items@).push(item@));
        self
    }
}

} // verus!
