//! `SELECT` statements.

use crate::bucket::Bucket;
use crate::prelude::{
    with_item, comparison, comparison_text, pair_views, with_clause, with_clause_text, Join, Order,
    QueryBuilder, QueryBuilderWithGroupBy, QueryBuilderWithJoin, QueryBuilderWithLimit,
    QueryBuilderWithOffset, QueryBuilderWithOrder, QueryBuilderWithQueries, QueryBuilderWithWhere,
};
use crate::text::{
    concat2, join, join_strings, lemma_join_push, list_clause, list_clause_text, opt_view, placeholder,
    placeholder_text, present, push_section, views,
};
use crate::placeholders::{
    all_placeholders, all_plain, is_numbering, lemma_all_concat, lemma_all_push,
    lemma_all_push_plain, lemma_comparison, lemma_concat, lemma_join, lemma_list_clause,
    lemma_list_clause_plain, lemma_no_dollar, lemma_no_dollar_concat, lemma_no_dollar_join,
    lemma_numbering_insert, lemma_placeholder, lemma_present_single, no_dollar,
    placeholders,
};
use crate::value::SqlValue;
use vstd::prelude::*;

verus! {

/// Builds `[WITH ...] SELECT <columns or *> FROM <table> [<joins>]
/// [WHERE ...] [GROUP BY ...] [ORDER BY ...] [LIMIT ...] [OFFSET ...]`.
pub struct SelectBuilder {
    with_queries: Vec<(String, String)>,
    columns: Vec<String>,
    from_table: String,
    conditions: Vec<String>,
    joins: Vec<Join>,
    groups: Vec<String>,
    order: Vec<Order>,
    limit: Option<String>,
    offset: Option<String>,
    params: Bucket,
}

/// What a `SelectBuilder` holds; `joins` and `order` are the texts that the
/// join and sort specifiers render to, `limit` and `offset` the placeholders
/// of their bound values.
pub struct SelectView {
    pub with_queries: Seq<(Seq<char>, Seq<char>)>,
    pub columns: Seq<Seq<char>>,
    pub from_table: Seq<char>,
    pub conditions: Seq<Seq<char>>,
    pub joins: Seq<Seq<char>>,
    pub groups: Seq<Seq<char>>,
    pub order: Seq<Seq<char>>,
    pub limit: Option<Seq<char>>,
    pub offset: Option<Seq<char>>,
    pub params: Seq<SqlValue>,
}

impl View for SelectBuilder {
    type V = SelectView;

    closed spec fn view(&self) -> SelectView {
        SelectView {
            with_queries: pair_views(self.with_queries@),
            columns: views(self.columns@),
            from_table: self.from_table@,
            conditions: views(self.conditions@),
            joins: join_texts(self.joins@),
            groups: views(self.groups@),
            order: order_texts(self.order@),
            limit: opt_view(self.limit),
            offset: opt_view(self.offset),
            params: self.params@,
        }
    }
}

/// The texts of `joins`, in order.
pub open spec fn join_texts(joins: Seq<Join>) -> Seq<Seq<char>> {
    joins.map_values(|j: Join| j.text())
}

/// The texts of the sort keys `order`, in order.
pub open spec fn order_texts(order: Seq<Order>) -> Seq<Seq<char>> {
    order.map_values(|o: Order| o.text())
}

/// `keyword` followed by the text held, or no clause.
pub open spec fn prefixed(keyword: Seq<char>, o: Option<Seq<char>>) -> Option<Seq<char>> {
    match o {
        Some(s) => Some(keyword + s),
        None => None,
    }
}

impl SelectView {
    /// `SELECT` with the columns, or `*` without any.
    pub open spec fn select_clause(self) -> Seq<char> {
        if self.columns.len() == 0 {
            "SELECT "@ + "*"@
        } else {
            "SELECT "@ + join(self.columns, ", "@)
        }
    }

    /// The sections before `LIMIT`, in order, each present one once.
    pub open spec fn body_sections(self) -> Seq<Seq<char>> {
        present(with_clause(self.with_queries)) + seq![
            self.select_clause(),
            "FROM "@ + self.from_table,
        ] + self.joins + present(
            list_clause("WHERE "@, self.conditions, " AND "@, ""@),
        ) + present(list_clause("GROUP BY "@, self.groups, ", "@, ""@)) + present(
            list_clause("ORDER BY "@, self.order, ", "@, ""@),
        )
    }

    /// The sections of the statement, in order, each present one once.
    pub open spec fn sections(self) -> Seq<Seq<char>> {
        self.body_sections() + present(prefixed("LIMIT "@, self.limit)) + present(
            prefixed("OFFSET "@, self.offset),
        )
    }

    /// A builder for `table` with every clause empty.
    pub open spec fn fresh(table: Seq<char>) -> SelectView {
        SelectView {
            with_queries: seq![],
            columns: seq![],
            from_table: table,
            conditions: seq![],
            joins: seq![],
            groups: seq![],
            order: seq![],
            limit: None,
            offset: None,
            params: seq![],
        }
    }

    /// The state after binding `value` and adding the condition
    /// `field op $n` for it.
    pub open spec fn after_comparison(self, field: Seq<char>, op: Seq<char>, value: SqlValue) -> SelectView {
        SelectView {
            conditions: self.conditions.push(comparison(field, op, self.params.len() + 1)),
            params: self.params.push(value),
            ..self
        }
    }

    /// The state after binding `limit` as the row limit.
    pub open spec fn after_limit(self, limit: i64) -> SelectView {
        SelectView {
            limit: Some(placeholder(self.params.len() + 1)),
            params: self.params.push(SqlValue::BigInt(limit)),
            ..self
        }
    }

    /// The state after binding `offset` as the number of rows to skip.
    pub open spec fn after_offset(self, offset: i64) -> SelectView {
        SelectView {
            offset: Some(placeholder(self.params.len() + 1)),
            params: self.params.push(SqlValue::BigInt(offset)),
            ..self
        }
    }

    /// The statement text.
    pub open spec fn query(self) -> Seq<char> {
        join(self.sections(), " "@)
    }

    /// The placeholders that the conditions, the limit and the offset hold,
    /// in the order in which they appear.
    pub open spec fn bound_placeholders(self) -> Seq<nat> {
        all_placeholders(self.conditions) + all_placeholders(present(self.limit)) + all_placeholders(
            present(self.offset),
        )
    }

    /// The names and texts given to the builder hold no `$` but in the
    /// placeholders it wrote, and those number the bound values: each of
    /// `$1` to `$n` once.
    pub open spec fn well_numbered(self) -> bool {
        &&& no_dollar(self.from_table)
        &&& forall|i: int|
            0 <= i < self.with_queries.len() ==> no_dollar(#[trigger] self.with_queries[i].0)
                && no_dollar(self.with_queries[i].1)
        &&& all_plain(self.columns)
        &&& all_plain(self.joins)
        &&& all_plain(self.groups)
        &&& all_plain(self.order)
        &&& is_numbering(self.bound_placeholders(), self.params.len())
    }
}

/// A select builder with no clause set renders `SELECT * FROM <table>`.
pub proof fn lemma_select_fresh(table: Seq<char>)
    ensures
        SelectView::fresh(table).query() == "SELECT * FROM "@ + table,
{
    reveal_strlit("SELECT * FROM ");
    reveal_strlit("SELECT ");
    reveal_strlit("*");
    reveal_strlit("FROM ");
    reveal_strlit(" ");
    let v = SelectView::fresh(table);
    assert(with_clause(v.with_queries) is None);
    assert(v.sections() =~= seq!["SELECT "@ + "*"@, "FROM "@ + table]);
    lemma_join_push(seq!["SELECT "@ + "*"@], "FROM "@ + table, " "@);
    assert(seq!["SELECT "@ + "*"@].push("FROM "@ + table) == v.sections());
    assert(join(seq!["SELECT "@ + "*"@], " "@) == "SELECT "@ + "*"@);
    assert(v.query() =~= "SELECT * FROM "@ + table);
}

/// With both set, the text ends in `LIMIT` and then `OFFSET`.
pub proof fn lemma_paging(v: SelectView, l: Seq<char>, o: Seq<char>)
    requires
        v.limit == Some(l),
        v.offset == Some(o),
    ensures
        v.query() == join(v.body_sections(), " "@) + " LIMIT "@ + l + " OFFSET "@ + o,
{
    reveal_strlit(" ");
    reveal_strlit(" LIMIT ");
    reveal_strlit("LIMIT ");
    reveal_strlit(" OFFSET ");
    reveal_strlit("OFFSET ");
    let body = v.body_sections();
    assert(body.len() >= 2);
    assert(v.sections() =~= body.push("LIMIT "@ + l).push("OFFSET "@ + o));
    lemma_join_push(body, "LIMIT "@ + l, " "@);
    lemma_join_push(body.push("LIMIT "@ + l), "OFFSET "@ + o, " "@);
    assert(v.query() =~= join(body, " "@) + " LIMIT "@ + l + " OFFSET "@ + o);
}

/// `LIMIT` renders before `OFFSET` whichever of the two is called first;
/// each shows the placeholder of its own value.
pub proof fn lemma_limit_before_offset(v: SelectView, limit: i64, offset: i64)
    requires
        v.limit is None,
        v.offset is None,
    ensures
        v.after_limit(limit).after_offset(offset).query() == join(v.body_sections(), " "@)
            + " LIMIT "@ + placeholder(v.params.len() + 1) + " OFFSET "@ + placeholder(
            v.params.len() + 2,
        ),
        v.after_offset(offset).after_limit(limit).query() == join(v.body_sections(), " "@)
            + " LIMIT "@ + placeholder(v.params.len() + 2) + " OFFSET "@ + placeholder(
            v.params.len() + 1,
        ),
{
    let n = v.params.len();
    let a = v.after_limit(limit).after_offset(offset);
    let b = v.after_offset(offset).after_limit(limit);
    assert(a.body_sections() == v.body_sections());
    assert(b.body_sections() == v.body_sections());
    lemma_paging(a, placeholder(n + 1), placeholder(n + 2));
    lemma_paging(b, placeholder(n + 2), placeholder(n + 1));
}

/// Conditions added one after the other stand in the `WHERE` clause in the
/// order of the calls, whatever else was set.
pub proof fn lemma_conditions_in_call_order(
    v: SelectView,
    first_field: Seq<char>,
    first_value: SqlValue,
    second_field: Seq<char>,
    second_value: SqlValue,
)
    ensures
        v.after_comparison(first_field, " = "@, first_value).after_comparison(
            second_field,
            " = "@,
            second_value,
        ).conditions == v.conditions + seq![
            comparison(first_field, " = "@, v.params.len() + 1),
            comparison(second_field, " = "@, v.params.len() + 2),
        ],
{
    let a = v.after_comparison(first_field, " = "@, first_value).after_comparison(
        second_field,
        " = "@,
        second_value,
    );
    assert(a.conditions =~= v.conditions + seq![
        comparison(first_field, " = "@, v.params.len() + 1),
        comparison(second_field, " = "@, v.params.len() + 2),
    ]);
}

proof fn lemma_prefixed(keyword: Seq<char>, o: Option<Seq<char>>)
    requires
        no_dollar(keyword),
    ensures
        all_placeholders(present(prefixed(keyword, o))) == all_placeholders(present(o)),
{
    if let Some(x) = o {
        lemma_no_dollar(keyword);
        lemma_concat(keyword, x);
        lemma_present_single(keyword + x);
        lemma_present_single(x);
    }
}

/// A well-numbered select statement holds one placeholder per bound value:
/// each of `$1` to `$n` appears once, and `$k` stands for the `k`-th value
/// that `get_ref_params` hands out.
pub proof fn lemma_select_placeholders(v: SelectView)
    requires
        v.well_numbered(),
    ensures
        is_numbering(placeholders(v.query()), v.params.len()),
        placeholders(v.query()) == v.bound_placeholders(),
{
    reveal_strlit(" ");
    reveal_strlit(", ");
    reveal_strlit("");
    reveal_strlit(")");
    reveal_strlit("*");
    reveal_strlit(" AND ");
    reveal_strlit("WITH ");
    reveal_strlit(" AS (");
    reveal_strlit("SELECT ");
    reveal_strlit("FROM ");
    reveal_strlit("WHERE ");
    reveal_strlit("GROUP BY ");
    reveal_strlit("ORDER BY ");
    reveal_strlit("LIMIT ");
    reveal_strlit("OFFSET ");
    let w = present(with_clause(v.with_queries));
    let h = seq![v.select_clause(), "FROM "@ + v.from_table];
    let j = v.joins;
    let wh = present(list_clause("WHERE "@, v.conditions, " AND "@, ""@));
    let g = present(list_clause("GROUP BY "@, v.groups, ", "@, ""@));
    let o = present(list_clause("ORDER BY "@, v.order, ", "@, ""@));
    let l = present(prefixed("LIMIT "@, v.limit));
    let f = present(prefixed("OFFSET "@, v.offset));
    lemma_join(v.sections(), " "@);
    lemma_all_concat(w, h);
    lemma_all_concat(w + h, j);
    lemma_all_concat(w + h + j, wh);
    lemma_all_concat(w + h + j + wh, g);
    lemma_all_concat(w + h + j + wh + g, o);
    lemma_all_concat(w + h + j + wh + g + o, l);
    lemma_all_concat(w + h + j + wh + g + o + l, f);
    let items = v.with_queries.map_values(|p: (Seq<char>, Seq<char>)| with_item(p));
    assert forall|i: int| 0 <= i < items.len() implies no_dollar(#[trigger] items[i]) by {
        let p = v.with_queries[i];
        lemma_no_dollar_concat(p.0, " AS ("@);
        lemma_no_dollar_concat(p.0 + " AS ("@, p.1);
        lemma_no_dollar_concat(p.0 + " AS ("@ + p.1, ")"@);
    }
    lemma_list_clause_plain("WITH "@, items, ", "@, ""@);
    if v.columns.len() > 0 {
        lemma_no_dollar_join(v.columns, ", "@);
        lemma_no_dollar_concat("SELECT "@, join(v.columns, ", "@));
    } else {
        lemma_no_dollar_concat("SELECT "@, "*"@);
    }
    lemma_no_dollar_concat("FROM "@, v.from_table);
    crate::placeholders::lemma_all_plain(h);
    crate::placeholders::lemma_all_plain(j);
    lemma_list_clause("WHERE "@, v.conditions, " AND "@, ""@);
    lemma_list_clause_plain("GROUP BY "@, v.groups, ", "@, ""@);
    lemma_list_clause_plain("ORDER BY "@, v.order, ", "@, ""@);
    lemma_prefixed("LIMIT "@, v.limit);
    lemma_prefixed("OFFSET "@, v.offset);
}

impl SelectBuilder {
    /// A builder selecting from `from`, with every clause empty.
    pub fn new(from: &str) -> (r: SelectBuilder)
        ensures
            r@ == SelectView::fresh(from@),
            no_dollar(from@) ==> r@.well_numbered(),
    {
        let r = SelectBuilder {
            with_queries: Vec::new(),
            columns: Vec::new(),
            from_table: from.to_owned(),
            conditions: Vec::new(),
            joins: Vec::new(),
            groups: Vec::new(),
            order: Vec::new(),
            limit: None,
            offset: None,
            params: Bucket::new(),
        };
        assert(views(r.columns@) == Seq::<Seq<char>>::empty());
        assert(views(r.conditions@) == Seq::<Seq<char>>::empty());
        assert(views(r.groups@) == Seq::<Seq<char>>::empty());
        assert(join_texts(r.joins@) == Seq::<Seq<char>>::empty());
        assert(order_texts(r.order@) == Seq::<Seq<char>>::empty());
        assert(r@.bound_placeholders() =~= Seq::<nat>::empty());
        assert(pair_views(r.with_queries@) == Seq::<(Seq<char>, Seq<char>)>::empty());
        r
    }

    /// Appends a column to select.
    pub fn select(&mut self, column: &str)
        ensures
            final(self)@ == (SelectView { columns: old(self)@.columns.push(column@), ..old(self)@ }),
            old(self)@.well_numbered() && no_dollar(column@) ==> final(self)@.well_numbered(),
    {
        self.columns.push(column.to_owned());
        assert(views(self.columns@) == views(old(self).columns@).push(column@));
    }

    /// Appends a raw condition.
    pub fn add_where_raw(&mut self, raw: String)
        ensures
            final(self)@ == (SelectView {
                conditions: old(self)@.conditions.push(raw@),
                ..old(self)@
            }),
            old(self)@.well_numbered() && no_dollar(raw@) ==> final(self)@.well_numbered(),
    {
        let ghost text = raw@;
        self.conditions.push(raw);
        assert(views(self.conditions@) == views(old(self).conditions@).push(text));
        proof {
            if no_dollar(text) {
                lemma_all_push_plain(old(self)@.conditions, text);
            }
        }
    }

    fn with_queries_to_query(&self) -> (r: Option<String>)
        ensures
            opt_view(r) == with_clause(self@.with_queries),
    {
        with_clause_text(&self.with_queries)
    }

    fn select_to_query(&self) -> (r: String)
        ensures
            r@ == self@.select_clause(),
    {
        if self.columns.len() == 0 {
            concat2("SELECT ", "*")
        } else {
            let columns = join_strings(&self.columns, ", ");
            concat2("SELECT ", columns.as_str())
        }
    }

    fn from_to_query(&self) -> (r: String)
        ensures
            r@ == "FROM "@ + self@.from_table,
    {
        concat2("FROM ", self.from_table.as_str())
    }

    fn joins_to_query(&self, sections: &mut Vec<String>)
        ensures
            views(final(sections)@) == views(old(sections)@) + self@.joins,
    {
        let ghost texts = self@.joins;
        let n = self.joins.len();
        let mut i: usize = 0;
        while i < n
            invariant
                n == self.joins.len(),
                texts == self@.joins,
                i <= n,
                views(sections@) == views(old(sections)@) + texts.take(i as int),
            decreases n - i,
        {
            let ghost prev = sections@;
            let t = self.joins[i].to_string();
            sections.push(t);
            assert(views(sections@) == views(prev).push(t@));
            assert(texts.take(i as int + 1) == texts.take(i as int).push(texts[i as int]));
            i = i + 1;
        }
        assert(texts.take(n as int) == texts);
    }

    fn where_to_query(&self) -> (r: Option<String>)
        ensures
            opt_view(r) == list_clause("WHERE "@, self@.conditions, " AND "@, ""@),
    {
        list_clause_text("WHERE ", &self.conditions, " AND ", "")
    }

    fn group_by_to_query(&self) -> (r: Option<String>)
        ensures
            opt_view(r) == list_clause("GROUP BY "@, self@.groups, ", "@, ""@),
    {
        list_clause_text("GROUP BY ", &self.groups, ", ", "")
    }

    fn order_by_to_query(&self) -> (r: Option<String>)
        ensures
            opt_view(r) == list_clause("ORDER BY "@, self@.order, ", "@, ""@),
    {
        let ghost texts = self@.order;
        let mut rendered: Vec<String> = Vec::new();
        let n = self.order.len();
        let mut i: usize = 0;
        while i < n
            invariant
                n == self.order.len(),
                texts == self@.order,
                i <= n,
                views(rendered@) == texts.take(i as int),
            decreases n - i,
        {
            let ghost prev = rendered@;
            let t = self.order[i].to_string();
            rendered.push(t);
            assert(views(rendered@) == views(prev).push(t@));
            assert(texts.take(i as int + 1) == texts.take(i as int).push(texts[i as int]));
            i = i + 1;
        }
        assert(texts.take(n as int) == texts);
        list_clause_text("ORDER BY ", &rendered, ", ", "")
    }

    fn limit_to_query(&self) -> (r: Option<String>)
        ensures
            opt_view(r) == prefixed("LIMIT "@, self@.limit),
    {
        match &self.limit {
            Some(limit) => Some(concat2("LIMIT ", limit.as_str())),
            None => None,
        }
    }

    fn offset_to_query(&self) -> (r: Option<String>)
        ensures
            opt_view(r) == prefixed("OFFSET "@, self@.offset),
    {
        match &self.offset {
            Some(offset) => Some(concat2("OFFSET ", offset.as_str())),
            None => None,
        }
    }

    fn push_condition(&mut self, c: String)
        ensures
            final(self)@ == (SelectView { conditions: old(self)@.conditions.push(c@), ..old(self)@ }),
    {
        self.conditions.push(c);
        assert(views(self.conditions@) == views(old(self).conditions@).push(c@));
    }

    fn push_join(&mut self, j: Join)
        ensures
            final(self)@ == (SelectView { joins: old(self)@.joins.push(j.text()), ..old(self)@ }),
    {
        self.joins.push(j);
        assert(join_texts(self.joins@) == join_texts(old(self).joins@).push(j.text()));
    }
}

impl QueryBuilder for SelectBuilder {
    open spec fn params(&self) -> Seq<SqlValue> {
        self@.params
    }

    open spec fn query(&self) -> Seq<char> {
        self@.query()
    }

    fn add_param(&mut self, value: SqlValue) -> (index: usize)
        ensures
            final(self)@ == (SelectView { params: old(self)@.params.push(value), ..old(self)@ }),
    {
        self.params.push(value)
    }

    fn get_query(&self) -> (r: String) {
        let mut sections: Vec<String> = Vec::new();
        push_section(&mut sections, self.with_queries_to_query());
        sections.push(self.select_to_query());
        sections.push(self.from_to_query());
        self.joins_to_query(&mut sections);
        push_section(&mut sections, self.where_to_query());
        push_section(&mut sections, self.group_by_to_query());
        push_section(&mut sections, self.order_by_to_query());
        push_section(&mut sections, self.limit_to_query());
        push_section(&mut sections, self.offset_to_query());
        assert(views(sections@) == self@.sections());
        join_strings(&sections, " ")
    }

    fn get_ref_params(self) -> (r: Vec<SqlValue>) {
        self.params.into_values()
    }
}

impl QueryBuilderWithWhere for SelectBuilder {
    fn where_condition(&mut self, raw: &str) -> (r: &mut Self)
        ensures
            (*r)@ == (SelectView { conditions: old(self)@.conditions.push(raw@), ..old(self)@ }),
            old(self)@.well_numbered() && no_dollar(raw@) ==> (*r)@.well_numbered(),
            *final(self) == *final(r),
    {
        self.push_condition(raw.to_owned());
        proof {
            if no_dollar(raw@) {
                lemma_all_push_plain(old(self)@.conditions, raw@);
            }
        }
        self
    }

    fn where_eq(&mut self, field: &str, value: SqlValue) -> (r: &mut Self)
        ensures
            (*r)@ == old(self)@.after_comparison(field@, " = "@, value),
            old(self)@.well_numbered() && no_dollar(field@) ==> (*r)@.well_numbered(),
            *final(self) == *final(r),
    {
        let index = self.params.push(value);
        self.push_condition(comparison_text(field, " = ", index));
        proof {
            let n = old(self)@.params.len();
            reveal_strlit(" = ");
            if old(self)@.well_numbered() && no_dollar(field@) {
                lemma_comparison(field@, " = "@, n + 1);
                lemma_all_push(old(self)@.conditions, comparison(field@, " = "@, n + 1));
                let c = all_placeholders(old(self)@.conditions);
                let rest = all_placeholders(present(old(self)@.limit)) + all_placeholders(
                    present(old(self)@.offset),
                );
                assert(old(self)@.bound_placeholders() == c + rest);
                lemma_numbering_insert(c, rest, n);
                assert(self@.bound_placeholders() == c.push(n + 1) + rest);
            }
        }
        self
    }

    fn where_ne(&mut self, field: &str, value: SqlValue) -> (r: &mut Self)
        ensures
            (*r)@ == old(self)@.after_comparison(field@, " <> "@, value),
            old(self)@.well_numbered() && no_dollar(field@) ==> (*r)@.well_numbered(),
            *final(self) == *final(r),
    {
        let index = self.params.push(value);
        self.push_condition(comparison_text(field, " <> ", index));
        proof {
            let n = old(self)@.params.len();
            reveal_strlit(" <> ");
            if old(self)@.well_numbered() && no_dollar(field@) {
                lemma_comparison(field@, " <> "@, n + 1);
                lemma_all_push(old(self)@.conditions, comparison(field@, " <> "@, n + 1));
                let c = all_placeholders(old(self)@.conditions);
                let rest = all_placeholders(present(old(self)@.limit)) + all_placeholders(
                    present(old(self)@.offset),
                );
                assert(old(self)@.bound_placeholders() == c + rest);
                lemma_numbering_insert(c, rest, n);
                assert(self@.bound_placeholders() == c.push(n + 1) + rest);
            }
        }
        self
    }
}

impl QueryBuilderWithLimit for SelectBuilder {
    fn limit(&mut self, limit: i64) -> (r: &mut Self)
        ensures
            (*r)@ == old(self)@.after_limit(limit),
            old(self)@.well_numbered() && old(self)@.limit is None ==> (*r)@.well_numbered(),
            *final(self) == *final(r),
    {
        let index = self.params.push(SqlValue::BigInt(limit));
        self.limit = Some(placeholder_text(index));
        proof {
            let n = old(self)@.params.len();
            assert(self@ == old(self)@.after_limit(limit));
            if old(self)@.well_numbered() && old(self)@.limit is None {
                lemma_placeholder(n + 1);
                lemma_present_single(placeholder(n + 1));
                let c = all_placeholders(old(self)@.conditions);
                let o = all_placeholders(present(old(self)@.offset));
                assert(old(self)@.bound_placeholders() == c + o);
                lemma_numbering_insert(c, o, n);
                assert(self@.bound_placeholders() == c.push(n + 1) + o);
            }
        }
        self
    }
}

impl QueryBuilderWithOffset for SelectBuilder {
    fn offset(&mut self, offset: i64) -> (r: &mut Self)
        ensures
            (*r)@ == old(self)@.after_offset(offset),
            old(self)@.well_numbered() && old(self)@.offset is None ==> (*r)@.well_numbered(),
            *final(self) == *final(r),
    {
        let index = self.params.push(SqlValue::BigInt(offset));
        self.offset = Some(placeholder_text(index));
        proof {
            let n = old(self)@.params.len();
            assert(self@ == old(self)@.after_offset(offset));
            if old(self)@.well_numbered() && old(self)@.offset is None {
                lemma_placeholder(n + 1);
                lemma_present_single(placeholder(n + 1));
                let c = all_placeholders(old(self)@.conditions) + all_placeholders(
                    present(old(self)@.limit),
                );
                assert(old(self)@.bound_placeholders() == c + Seq::<nat>::empty());
                lemma_numbering_insert(c, Seq::<nat>::empty(), n);
                assert(self@.bound_placeholders() == c.push(n + 1) + Seq::<nat>::empty());
            }
        }
        self
    }
}

impl QueryBuilderWithJoin for SelectBuilder {
    fn inner_join(&mut self, table_name: &str, relation: &str) -> (r: &mut Self)
        ensures
            (*r)@ == (SelectView {
                joins: old(self)@.joins.push("INNER JOIN "@ + table_name@ + " ON "@ + relation@),
                ..old(self)@
            }),
            old(self)@.well_numbered() && no_dollar(table_name@) && no_dollar(relation@) ==> (
            *r)@.well_numbered(),
            *final(self) == *final(r),
    {
        self.push_join(Join::Inner(table_name.to_owned(), relation.to_owned()));
        proof {
            reveal_strlit("INNER JOIN ");
            reveal_strlit(" ON ");
            if no_dollar(table_name@) && no_dollar(relation@) {
                lemma_no_dollar_concat("INNER JOIN "@, table_name@);
                lemma_no_dollar_concat("INNER JOIN "@ + table_name@, " ON "@);
                lemma_no_dollar_concat("INNER JOIN "@ + table_name@ + " ON "@, relation@);
            }
        }
        self
    }

    fn left_join(&mut self, table_name: &str, relation: &str) -> (r: &mut Self)
        ensures
            (*r)@ == (SelectView {
                joins: old(self)@.joins.push("LEFT JOIN "@ + table_name@ + " ON "@ + relation@),
                ..old(self)@
            }),
            old(self)@.well_numbered() && no_dollar(table_name@) && no_dollar(relation@) ==> (
            *r)@.well_numbered(),
            *final(self) == *final(r),
    {
        self.push_join(Join::Left(table_name.to_owned(), relation.to_owned()));
        proof {
            reveal_strlit("LEFT JOIN ");
            reveal_strlit(" ON ");
            if no_dollar(table_name@) && no_dollar(relation@) {
                lemma_no_dollar_concat("LEFT JOIN "@, table_name@);
                lemma_no_dollar_concat("LEFT JOIN "@ + table_name@, " ON "@);
                lemma_no_dollar_concat("LEFT JOIN "@ + table_name@ + " ON "@, relation@);
            }
        }
        self
    }

    fn left_outer_join(&mut self, table_name: &str, relation: &str) -> (r: &mut Self)
        ensures
            (*r)@ == (SelectView {
                joins: old(self)@.joins.push("LEFT OUTER JOIN "@ + table_name@ + " ON "@ + relation@),
                ..old(self)@
            }),
            old(self)@.well_numbered() && no_dollar(table_name@) && no_dollar(relation@) ==> (
            *r)@.well_numbered(),
            *final(self) == *final(r),
    {
        self.push_join(Join::LeftOuter(table_name.to_owned(), relation.to_owned()));
        proof {
            reveal_strlit("LEFT OUTER JOIN ");
            reveal_strlit(" ON ");
            if no_dollar(table_name@) && no_dollar(relation@) {
                lemma_no_dollar_concat("LEFT OUTER JOIN "@, table_name@);
                lemma_no_dollar_concat("LEFT OUTER JOIN "@ + table_name@, " ON "@);
                lemma_no_dollar_concat("LEFT OUTER JOIN "@ + table_name@ + " ON "@, relation@);
            }
        }
        self
    }
}

impl QueryBuilderWithGroupBy for SelectBuilder {
    fn group_by(&mut self, field: &str) -> (r: &mut Self)
        ensures
            (*r)@ == (SelectView { groups: old(self)@.groups.push(field@), ..old(self)@ }),
            old(self)@.well_numbered() && no_dollar(field@) ==> (*r)@.well_numbered(),
            *final(self) == *final(r),
    {
        self.groups.push(field.to_owned());
        assert(views(self.groups@) == views(old(self).groups@).push(field@));
        self
    }
}

impl QueryBuilderWithOrder for SelectBuilder {
    fn order_by(&mut self, field: Order)
        ensures
            final(self)@ == (SelectView { order: old(self)@.order.push(field.text()), ..old(self)@ }),
            old(self)@.well_numbered() && no_dollar(field.text()) ==> final(self)@.well_numbered(),
    {
        self.order.push(field);
        assert(order_texts(self.order@) == order_texts(old(self).order@).push(field.text()));
    }
}

impl QueryBuilderWithQueries for SelectBuilder {
    fn with_query(&mut self, name: &str, query: &str) -> (r: &mut Self)
        ensures
            (*r)@ == (SelectView {
                with_queries: old(self)@.with_queries.push((name@, query@)),
                ..old(self)@
            }),
            old(self)@.well_numbered() && no_dollar(name@) && no_dollar(query@) ==> (
            *r)@.well_numbered(),
            *final(self) == *final(r),
    {
        self.with_queries.push((name.to_owned(), query.to_owned()));
        assert(pair_views(self.with_queries@) == pair_views(old(self).with_queries@).push(
            (name@, query@),
        ));
        self
    }
}

} // verus!
