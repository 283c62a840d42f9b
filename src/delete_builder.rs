//! `DELETE` statements.

use crate::bucket::Bucket;
use crate::prelude::{comparison, comparison_text, QueryBuilder, QueryBuilderWithWhere};
use crate::text::{join, list_clause, list_clause_text, present, join_strings, push_section, views, concat2};
use crate::placeholders::{
    all_placeholders, index_range, lemma_all_concat, lemma_all_push, lemma_comparison,
    lemma_index_range_push, lemma_join, lemma_list_clause, lemma_no_dollar_concat,
    lemma_present_plain, no_dollar, placeholders,
};
use crate::value::SqlValue;
use vstd::prelude::*;

verus! {

/// Builds `DELETE FROM <table> [WHERE <cond> AND ...]`.
pub struct DeleteBuilder {
    table: String,
    conditions: Vec<String>,
    params: Bucket,
}

/// What a `DeleteBuilder` holds.
pub struct DeleteView {
    pub table: Seq<char>,
    pub conditions: Seq<Seq<char>>,
    pub params: Seq<SqlValue>,
}

impl View for DeleteBuilder {
    type V = DeleteView;

    closed spec fn view(&self) -> DeleteView {
        DeleteView { table: self.table@, conditions: views(self.conditions@), params: self.params@ }
    }
}

impl DeleteView {
    /// The statement text.
    pub open spec fn query(self) -> Seq<char> {
        join(
            seq!["DELETE FROM "@ + self.table] + present(
                list_clause("WHERE "@, self.conditions, " AND "@, ""@),
            ),
            " "@,
        )
    }

    /// A builder for `table` with no condition.
    pub open spec fn fresh(table: Seq<char>) -> DeleteView {
        DeleteView { table: table, conditions: seq![], params: seq![] }
    }

    /// The table holds no `$`, and the placeholders of the conditions, read
    /// left to right, are `$1` to `$n` for the `n` bound values.
    pub open spec fn well_numbered(self) -> bool {
        &&& no_dollar(self.table)
        &&& all_placeholders(self.conditions) == index_range(1, self.params.len())
    }
}

/// A delete builder with no condition renders `DELETE FROM <table>`.
pub proof fn lemma_delete_fresh(table: Seq<char>)
    ensures
        DeleteView::fresh(table).query() == "DELETE FROM "@ + table,
{
    let v = DeleteView::fresh(table);
    assert(seq!["DELETE FROM "@ + table] + present(
        list_clause("WHERE "@, v.conditions, " AND "@, ""@),
    ) =~= seq!["DELETE FROM "@ + table]);
}

/// In a well-numbered delete statement the placeholders, read left to right,
/// are `$1`, `$2`, ... up to the number of bound values: the `n`-th
/// placeholder stands for the `n`-th value that `get_ref_params` hands out.
pub proof fn lemma_delete_placeholders(v: DeleteView)
    requires
        v.well_numbered(),
    ensures
        placeholders(v.query()) == index_range(1, v.params.len()),
{
    reveal_strlit(" ");
    reveal_strlit("");
    reveal_strlit(" AND ");
    reveal_strlit("WHERE ");
    reveal_strlit("DELETE FROM ");
    let h = seq!["DELETE FROM "@ + v.table];
    let w = present(list_clause("WHERE "@, v.conditions, " AND "@, ""@));
    lemma_join(h + w, " "@);
    lemma_all_concat(h, w);
    lemma_no_dollar_concat("DELETE FROM "@, v.table);
    lemma_present_plain(Some("DELETE FROM "@ + v.table));
    assert(h == present(Some("DELETE FROM "@ + v.table)));
    lemma_list_clause("WHERE "@, v.conditions, " AND "@, ""@);
}

impl DeleteBuilder {
    /// A builder for deleting from `from`, with no condition.
    pub fn new(from: &str) -> (r: DeleteBuilder)
        ensures
            r@ == DeleteView::fresh(from@),
            no_dollar(from@) ==> r@.well_numbered(),
    {
        let r = DeleteBuilder { table: from.to_owned(), conditions: Vec::new(), params: Bucket::new() };
        assert(views(r.conditions@) == Seq::<Seq<char>>::empty());
        assert(index_range(1, 0) =~= Seq::<nat>::empty());
        r
    }

    fn table_to_query(&self) -> (r: String)
        ensures
            r@ == "DELETE FROM "@ + self@.table,
    {
        concat2("DELETE FROM ", self.table.as_str())
    }

    fn where_to_query(&self) -> (r: Option<String>)
        ensures
            crate::text::opt_view(r) == list_clause("WHERE "@, self@.conditions, " AND "@, ""@),
    {
        list_clause_text("WHERE ", &self.conditions, " AND ", "")
    }

    fn push_condition(&mut self, c: String)
        ensures
            final(self)@ == (DeleteView { conditions: old(self)@.conditions.push(c@), ..old(self)@ }),
    {
        self.conditions.push(c);
        assert(views(self.conditions@) == views(old(self).conditions@).push(c@));
    }
}

impl QueryBuilder for DeleteBuilder {
    open spec fn params(&self) -> Seq<SqlValue> {
        self@.params
    }

    open spec fn query(&self) -> Seq<char> {
        self@.query()
    }

    fn add_param(&mut self, value: SqlValue) -> (index: usize)
        ensures
            final(self)@ == (DeleteView { params: old(self)@.params.push(value), ..old(self)@ }),
    {
        self.params.push(value)
    }

    fn get_query(&self) -> (r: String) {
        let mut sections: Vec<String> = Vec::new();
        sections.push(self.table_to_query());
        push_section(&mut sections, self.where_to_query());
        assert(views(sections@) == seq!["DELETE FROM "@ + self@.table] + present(
            list_clause("WHERE "@, self@.conditions, " AND "@, ""@),
        ));
        join_strings(&sections, " ")
    }

    fn get_ref_params(self) -> (r: Vec<SqlValue>) {
        self.params.into_values()
    }
}

impl QueryBuilderWithWhere for DeleteBuilder {
    fn where_condition(&mut self, raw: &str) -> (r: &mut Self)
        ensures
            (*r)@ == (DeleteView { conditions: old(self)@.conditions.push(raw@), ..old(self)@ }),
            old(self)@.well_numbered() && no_dollar(raw@) ==> (*r)@.well_numbered(),
            *final(self) == *final(r),
    {
        self.push_condition(raw.to_owned());
        proof {
            lemma_all_push(old(self)@.conditions, raw@);
            if no_dollar(raw@) {
                crate::placeholders::lemma_no_dollar(raw@);
            }
        }
        self
    }

    fn where_eq(&mut self, field: &str, value: SqlValue) -> (r: &mut Self)
        ensures
            (*r)@ == (DeleteView {
                conditions: old(self)@.conditions.push(
                    comparison(field@, " = "@, old(self)@.params.len() + 1),
                ),
                params: old(self)@.params.push(value),
                ..old(self)@
            }),
            old(self)@.well_numbered() && no_dollar(field@) ==> (*r)@.well_numbered(),
            *final(self) == *final(r),
    {
        let index = self.params.push(value);
        self.push_condition(comparison_text(field, " = ", index));
        proof {
            let n = old(self)@.params.len();
            reveal_strlit(" = ");
            if no_dollar(field@) {
                lemma_comparison(field@, " = "@, n + 1);
            }
            lemma_all_push(old(self)@.conditions, comparison(field@, " = "@, n + 1));
            lemma_index_range_push(1, n);
            assert(index_range(1, n).push(n + 1) == index_range(1, n) + seq![n + 1]);
        }
        self
    }

    fn where_ne(&mut self, field: &str, value: SqlValue) -> (r: &mut Self)
        ensures
            (*r)@ == (DeleteView {
                conditions: old(self)@.conditions.push(
                    comparison(field@, " <> "@, old(self)@.params.len() + 1),
                ),
                params: old(self)@.params.push(value),
                ..old(self)@
            }),
            old(self)@.well_numbered() && no_dollar(field@) ==> (*r)@.well_numbered(),
            *final(self) == *final(r),
    {
        let index = self.params.push(value);
        self.push_condition(comparison_text(field, " <> ", index));
        proof {
            let n = old(self)@.params.len();
            reveal_strlit(" <> ");
            if no_dollar(field@) {
                lemma_comparison(field@, " <> "@, n + 1);
            }
            lemma_all_push(old(self)@.conditions, comparison(field@, " <> "@, n + 1));
            lemma_index_range_push(1, n);
            assert(index_range(1, n).push(n + 1) == index_range(1, n) + seq![n + 1]);
        }
        self
    }
}

} // verus!
