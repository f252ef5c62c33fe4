//! The statement builder: accumulates the shape of one SQL statement
//! through chained configuration calls and renders it to literal text.

use vstd::prelude::*;
use crate::text::{joined, join_with, substituted, substitute};
use crate::value::FormatSqlValue;

verus! {

/// The closed set of statement shapes the builder can render.
pub enum QueryType {
    Select,
    Insert,
    Update,
    Delete,
    Truncate,
}

/// The mathematical model of a builder: the statement kind and the
/// accumulated text pieces, each piece a sequence of characters.
pub struct SqlBuilderView {
    pub query_type: QueryType,
    pub table: Seq<char>,
    pub select_columns: Seq<Seq<char>>,
    pub insert_columns: Seq<Seq<char>>,
    pub insert_values: Seq<Seq<char>>,
    pub update_columns: Seq<Seq<char>>,
    pub update_values: Seq<Seq<char>>,
    pub where_conditions: Seq<Seq<char>>,
    pub order_by_column: Option<Seq<char>>,
}

/// Accumulates the shape of one SELECT, INSERT, UPDATE, DELETE or
/// TRUNCATE statement.  Configuration calls take the builder by value and
/// hand an updated builder back; `build` renders the accumulated state.
pub struct SqlBuilder {
    query_type: QueryType,
    table: String,
    select_columns: Vec<String>,
    insert_columns: Vec<String>,
    insert_values: Vec<String>,
    update_columns: Vec<String>,
    update_values: Vec<String>,
    where_conditions: Vec<String>,
    order_by_column: Option<String>,
}

impl View for SqlBuilder {
    type V = SqlBuilderView;

    closed spec fn view(&self) -> SqlBuilderView {
        SqlBuilderView {
            query_type: self.query_type,
            table: self.table@,
            select_columns: self.select_columns@.map_values(|s: String| s@),
            insert_columns: self.insert_columns@.map_values(|s: String| s@),
            insert_values: self.insert_values@.map_values(|s: String| s@),
            update_columns: self.update_columns@.map_values(|s: String| s@),
            update_values: self.update_values@.map_values(|s: String| s@),
            where_conditions: self.where_conditions@.map_values(|s: String| s@),
            order_by_column: match self.order_by_column {
                Some(c) => Some(c@),
                None => None,
            },
        }
    }
}

/// The projection part of a SELECT: `*` when no column was named, else
/// the named columns joined by `, `.
pub open spec fn projection_text(cols: Seq<Seq<char>>) -> Seq<char> {
    if cols.len() == 0 {
        "*"@
    } else {
        joined(cols, ", "@)
    }
}

/// The WHERE part of a statement: the installed fragments joined by a
/// single space; empty when none was installed.  The primary fragment
/// carries its own leading ` WHERE `.
pub open spec fn where_text(conds: Seq<Seq<char>>) -> Seq<char> {
    joined(conds, " "@)
}

/// The trailing ORDER BY part of a SELECT; empty when no ordering column
/// was set.
pub open spec fn order_text(order: Option<Seq<char>>) -> Seq<char> {
    match order {
        Some(c) => " ORDER BY "@ + c,
        None => Seq::empty(),
    }
}

/// The rendering of a SELECT statement.
pub open spec fn select_text(b: SqlBuilderView) -> Seq<char> {
    "SELECT "@ + projection_text(b.select_columns) + " FROM "@ + b.table + where_text(
        b.where_conditions,
    ) + order_text(b.order_by_column)
}

/// The rendering of an INSERT statement.
pub open spec fn insert_text(b: SqlBuilderView) -> Seq<char> {
    "INSERT INTO "@ + b.table + " ("@ + joined(b.insert_columns, ", "@) + ") VALUES ("@ + joined(
        b.insert_values,
        ", "@,
    ) + ") RETURNING *"@
}

/// The `column = value` pairs of an UPDATE, index by index; a surplus of
/// columns or of values is ignored, as a zip ignores it.
pub open spec fn assignment_pairs(cols: Seq<Seq<char>>, vals: Seq<Seq<char>>) -> Seq<Seq<char>> {
    Seq::new(
        if cols.len() <= vals.len() {
            cols.len()
        } else {
            vals.len()
        },
        |i: int| cols[i] + " = "@ + vals[i],
    )
}

/// The rendering of an UPDATE statement.
pub open spec fn update_text(b: SqlBuilderView) -> Seq<char> {
    "UPDATE "@ + b.table + " SET "@ + joined(
        assignment_pairs(b.update_columns, b.update_values),
        ", "@,
    ) + " "@ + where_text(b.where_conditions) + " RETURNING *"@
}

/// The rendering of a DELETE statement.
pub open spec fn delete_text(b: SqlBuilderView) -> Seq<char> {
    "DELETE FROM "@ + b.table + " "@ + where_text(b.where_conditions) + " RETURNING *"@
}

/// The rendering of a TRUNCATE statement.
pub open spec fn truncate_text(b: SqlBuilderView) -> Seq<char> {
    "TRUNCATE "@ + b.table + ";"@
}

/// The rendering of a builder state: one of the five statement shapes,
/// picked by the statement kind.
pub open spec fn rendered(b: SqlBuilderView) -> Seq<char> {
    match b.query_type {
        QueryType::Select => select_text(b),
        QueryType::Insert => insert_text(b),
        QueryType::Update => update_text(b),
        QueryType::Delete => delete_text(b),
        QueryType::Truncate => truncate_text(b),
    }
}

/// Copies a borrowed column list into owned strings.
fn owned_strings(items: &[&str]) -> (r: Vec<String>)
    ensures
        r@.map_values(|s: String| s@) == items@.map_values(|c: &str| c@),
{
    let ghost views = items@.map_values(|c: &str| c@);
    let mut r: Vec<String> = Vec::new();
    let mut i: usize = 0;
    while i < items.len()
        invariant
            i <= items@.len(),
            views == items@.map_values(|c: &str| c@),
            views.len() == items@.len(),
            r@.len() == i,
            forall|j: int| 0 <= j < i ==> #[trigger] r@[j]@ == views[j],
        decreases items@.len() - i,
    {
        r.push(items[i].to_owned());
        i = i + 1;
    }
    proof {
        assert(r@.map_values(|s: String| s@) =~= views);
    }
    r
}

/// Renders each value of a borrowed list via its literal rendering.
fn rendered_values<F: FormatSqlValue>(values: &[&F]) -> (r: Vec<String>)
    ensures
        r@.map_values(|s: String| s@) == values@.map_values(|v: &F| v.sql_literal()),
{
    let ghost views = values@.map_values(|v: &F| v.sql_literal());
    let mut r: Vec<String> = Vec::new();
    let mut i: usize = 0;
    while i < values.len()
        invariant
            i <= values@.len(),
            views == values@.map_values(|v: &F| v.sql_literal()),
            views.len() == values@.len(),
            r@.len() == i,
            forall|j: int| 0 <= j < i ==> #[trigger] r@[j]@ == views[j],
        decreases values@.len() - i,
    {
        r.push(values[i].format_sql_value());
        i = i + 1;
    }
    proof {
        assert(r@.map_values(|s: String| s@) =~= views);
    }
    r
}

impl SqlBuilder {
    /// A fresh builder: kind SELECT, no table, every list empty, no
    /// ordering column.
    pub fn new() -> (r: Self)
        ensures
            r@ == (SqlBuilderView {
                query_type: QueryType::Select,
                table: Seq::empty(),
                select_columns: Seq::empty(),
                insert_columns: Seq::empty(),
                insert_values: Seq::empty(),
                update_columns: Seq::empty(),
                update_values: Seq::empty(),
                where_conditions: Seq::empty(),
                order_by_column: None,
            }),
    {
        let r = SqlBuilder {
            query_type: QueryType::Select,
            table: String::new(),
            select_columns: Vec::new(),
            insert_columns: Vec::new(),
            insert_values: Vec::new(),
            update_columns: Vec::new(),
            update_values: Vec::new(),
            where_conditions: Vec::new(),
            order_by_column: None,
        };
        proof {
            assert(r@.select_columns =~= Seq::<Seq<char>>::empty());
            assert(r@.insert_columns =~= Seq::<Seq<char>>::empty());
            assert(r@.insert_values =~= Seq::<Seq<char>>::empty());
            assert(r@.update_columns =~= Seq::<Seq<char>>::empty());
            assert(r@.update_values =~= Seq::<Seq<char>>::empty());
            assert(r@.where_conditions =~= Seq::<Seq<char>>::empty());
        }
        r
    }

    /// Makes this a SELECT statement against `table`.
    pub fn select_from(self, table: &str) -> (r: Self)
        ensures
            r@ == (SqlBuilderView { query_type: QueryType::Select, table: table@, ..self@ }),
    {
        let mut s = self;
        s.query_type = QueryType::Select;
        s.table = table.to_owned();
        s
    }

    /// Sets the projection list of a SELECT; an empty list renders as
    /// `*`.
    pub fn select_columns(self, columns: &[&str]) -> (r: Self)
        ensures
            r@ == (SqlBuilderView {
                select_columns: columns@.map_values(|c: &str| c@),
                ..self@
            }),
    {
        let mut s = self;
        s.select_columns = owned_strings(columns);
        s
    }

    /// Makes this an INSERT statement against `table`.
    pub fn insert_into(self, table: &str) -> (r: Self)
        ensures
            r@ == (SqlBuilderView { query_type: QueryType::Insert, table: table@, ..self@ }),
    {
        let mut s = self;
        s.query_type = QueryType::Insert;
        s.table = table.to_owned();
        s
    }

    /// Sets the column list of an INSERT.
    pub fn columns(self, columns: &[&str]) -> (r: Self)
        ensures
            r@ == (SqlBuilderView {
                insert_columns: columns@.map_values(|c: &str| c@),
                ..self@
            }),
    {
        let mut s = self;
        s.insert_columns = owned_strings(columns);
        s
    }

    /// Sets the value list of an INSERT; each value is rendered via its
    /// literal rendering.
    pub fn values<F: FormatSqlValue>(self, values: &[&F]) -> (r: Self)
        ensures
            r@ == (SqlBuilderView {
                insert_values: values@.map_values(|v: &F| v.sql_literal()),
                ..self@
            }),
    {
        let mut s = self;
        s.insert_values = rendered_values(values);
        s
    }

    /// Makes this an UPDATE statement against `table`.
    pub fn update(self, table: &str) -> (r: Self)
        ensures
            r@ == (SqlBuilderView { query_type: QueryType::Update, table: table@, ..self@ }),
    {
        let mut s = self;
        s.query_type = QueryType::Update;
        s.table = table.to_owned();
        s
    }

    /// Sets the column and value lists of an UPDATE pairwise, in index
    /// order; each value is rendered via its literal rendering.
    pub fn set_columns_and_values<F: FormatSqlValue>(self, columns: &[&str], values: &[&F]) -> (r:
        Self)
        ensures
            r@ == (SqlBuilderView {
                update_columns: columns@.map_values(|c: &str| c@),
                update_values: values@.map_values(|v: &F| v.sql_literal()),
                ..self@
            }),
    {
        let mut s = self;
        s.update_columns = owned_strings(columns);
        s.update_values = rendered_values(values);
        s
    }

    /// Makes this a DELETE statement against `table`.
    pub fn delete_from(self, table: &str) -> (r: Self)
        ensures
            r@ == (SqlBuilderView { query_type: QueryType::Delete, table: table@, ..self@ }),
    {
        let mut s = self;
        s.query_type = QueryType::Delete;
        s.table = table.to_owned();
        s
    }

    /// Makes this a TRUNCATE statement against `table`.
    pub fn truncate(self, table: &str) -> (r: Self)
        ensures
            r@ == (SqlBuilderView { query_type: QueryType::Truncate, table: table@, ..self@ }),
    {
        let mut s = self;
        s.query_type = QueryType::Truncate;
        s.table = table.to_owned();
        s
    }

    /// Renders `value`, substitutes it for the leftmost `{}` of `clause`,
    /// and installs the result, prefixed by ` WHERE `, as a further WHERE
    /// fragment.
    pub fn where_clause<F: FormatSqlValue>(self, clause: &str, value: F) -> (r: Self)
        ensures
            r@ == (SqlBuilderView {
                where_conditions: self@.where_conditions.push(
                    " WHERE "@ + substituted(clause@, value.sql_literal()),
                ),
                ..self@
            }),
    {
        let mut s = self;
        let formatted = value.format_sql_value();
        let filled = substitute(clause, formatted.as_str());
        let mut cond = String::from_str(" WHERE ");
        cond.append(filled.as_str());
        s.where_conditions.push(cond);
        proof {
            assert(s.where_conditions@.map_values(|c: String| c@) =~= self@.where_conditions.push(
                " WHERE "@ + substituted(clause@, value.sql_literal()),
            ));
        }
        s
    }

    /// Appends `condition`, prefixed by `AND `, verbatim as a further
    /// WHERE fragment.  No value is rendered: the caller supplies literal
    /// SQL text.
    pub fn and(self, condition: &str) -> (r: Self)
        ensures
            r@ == (SqlBuilderView {
                where_conditions: self@.where_conditions.push("AND "@ + condition@),
                ..self@
            }),
    {
        let mut s = self;
        let mut cond = String::from_str("AND ");
        cond.append(condition);
        s.where_conditions.push(cond);
        proof {
            assert(s.where_conditions@.map_values(|c: String| c@) =~= self@.where_conditions.push(
                "AND "@ + condition@,
            ));
        }
        s
    }

    /// Sets the ordering column of a SELECT.
    pub fn order_by(self, column: &str) -> (r: Self)
        ensures
            r@ == (SqlBuilderView { order_by_column: Some(column@), ..self@ }),
    {
        let mut s = self;
        s.order_by_column = Some(column.to_owned());
        s
    }

    /// Renders the accumulated state as SQL text.  Rendering is a pure
    /// read: it changes nothing and depends on the accumulated state
    /// alone.
    pub fn build(&self) -> (r: String)
        ensures
            r@ == rendered(self@),
    {
        match self.query_type {
            QueryType::Select => self.build_select(),
            QueryType::Insert => self.build_insert(),
            QueryType::Update => self.build_update(),
            QueryType::Delete => self.build_delete(),
            QueryType::Truncate => self.build_truncate(),
        }
    }

    fn build_select(&self) -> (r: String)
        ensures
            r@ == select_text(self@),
    {
        let mut q = String::from_str("SELECT ");
        if self.select_columns.len() == 0 {
            q.append("*");
        } else {
            let cols = join_with(&self.select_columns, ", ");
            q.append(cols.as_str());
        }
        q.append(" FROM ");
        q.append(self.table.as_str());
        if self.where_conditions.len() > 0 {
            let conds = join_with(&self.where_conditions, " ");
            q.append(conds.as_str());
        }
        match &self.order_by_column {
            Some(c) => {
                q.append(" ORDER BY ");
                q.append(c.as_str());
            },
            None => {},
        }
        proof {
            assert(q@ =~= select_text(self@));
        }
        q
    }

    fn build_insert(&self) -> (r: String)
        ensures
            r@ == insert_text(self@),
    {
        let mut q = String::from_str("INSERT INTO ");
        q.append(self.table.as_str());
        q.append(" (");
        let cols = join_with(&self.insert_columns, ", ");
        q.append(cols.as_str());
        q.append(") VALUES (");
        let vals = join_with(&self.insert_values, ", ");
        q.append(vals.as_str());
        q.append(") RETURNING *");
        proof {
            assert(q@ =~= insert_text(self@));
        }
        q
    }

    fn build_update(&self) -> (r: String)
        ensures
            r@ == update_text(self@),
    {
        let ghost pairs = assignment_pairs(self@.update_columns, self@.update_values);
        let n = if self.update_columns.len() <= self.update_values.len() {
            self.update_columns.len()
        } else {
            self.update_values.len()
        };
        let mut sets: Vec<String> = Vec::new();
        let mut i: usize = 0;
        while i < n
            invariant
                i <= n,
                n == pairs.len(),
                n <= self.update_columns@.len(),
                n <= self.update_values@.len(),
                pairs == assignment_pairs(self@.update_columns, self@.update_values),
                sets@.len() == i,
                forall|j: int| 0 <= j < i ==> #[trigger] sets@[j]@ == pairs[j],
            decreases n - i,
        {
            let mut pair = self.update_columns[i].clone();
            pair.append(" = ");
            pair.append(self.update_values[i].as_str());
            sets.push(pair);
            i = i + 1;
        }
        proof {
            assert(sets@.map_values(|s: String| s@) =~= pairs);
        }
        let mut q = String::from_str("UPDATE ");
        q.append(self.table.as_str());
        q.append(" SET ");
        let set_clause = join_with(&sets, ", ");
        q.append(set_clause.as_str());
        q.append(" ");
        let conds = join_with(&self.where_conditions, " ");
        q.append(conds.as_str());
        q.append(" RETURNING *");
        proof {
            assert(q@ =~= update_text(self@));
        }
        q
    }

    fn build_delete(&self) -> (r: String)
        ensures
            r@ == delete_text(self@),
    {
        let mut q = String::from_str("DELETE FROM ");
        q.append(self.table.as_str());
        q.append(" ");
        let conds = join_with(&self.where_conditions, " ");
        q.append(conds.as_str());
        q.append(" RETURNING *");
        proof {
            assert(q@ =~= delete_text(self@));
        }
        q
    }

    fn build_truncate(&self) -> (r: String)
        ensures
            r@ == truncate_text(self@),
    {
        let mut q = String::from_str("TRUNCATE ");
        q.append(self.table.as_str());
        q.append(";");
        proof {
            assert(q@ =~= truncate_text(self@));
        }
        q
    }
}

/// Rendering is a pure read of the accumulated state: equal states
/// render to equal text, so one builder yields identical text however
/// often it is rendered.
pub proof fn lemma_rendering_deterministic(a: SqlBuilderView, b: SqlBuilderView)
    requires
        a == b,
    ensures
        rendered(a) == rendered(b),
{
}

/// A SELECT with nothing but its table configured renders with no
/// trailing clauses.
pub proof fn lemma_bare_select(b: SqlBuilderView)
    requires
        b.query_type == QueryType::Select,
        b.select_columns == Seq::<Seq<char>>::empty(),
        b.where_conditions == Seq::<Seq<char>>::empty(),
        b.order_by_column is None,
    ensures
        rendered(b) == "SELECT * FROM "@ + b.table,
{
    reveal_strlit("SELECT ");
    reveal_strlit("*");
    reveal_strlit(" FROM ");
    reveal_strlit("SELECT * FROM ");
    assert(rendered(b) =~= "SELECT * FROM "@ + b.table);
}

/// A SELECT whose only further configuration is an ordering column
/// gains exactly the ORDER BY tail.
pub proof fn lemma_select_order_by(b: SqlBuilderView, col: Seq<char>)
    requires
        b.query_type == QueryType::Select,
        b.select_columns == Seq::<Seq<char>>::empty(),
        b.where_conditions == Seq::<Seq<char>>::empty(),
        b.order_by_column == Some(col),
    ensures
        rendered(b) == "SELECT * FROM "@ + b.table + " ORDER BY "@ + col,
{
    reveal_strlit("SELECT ");
    reveal_strlit("*");
    reveal_strlit(" FROM ");
    reveal_strlit("SELECT * FROM ");
    assert(rendered(b) =~= "SELECT * FROM "@ + b.table + " ORDER BY "@ + col);
}

/// A SELECT with exactly one installed WHERE fragment carries that
/// fragment verbatim after the table.
pub proof fn lemma_select_single_where(b: SqlBuilderView, cond: Seq<char>)
    requires
        b.query_type == QueryType::Select,
        b.select_columns == Seq::<Seq<char>>::empty(),
        b.where_conditions == seq![cond],
        b.order_by_column is None,
    ensures
        rendered(b) == "SELECT * FROM "@ + b.table + cond,
{
    reveal_strlit("SELECT ");
    reveal_strlit("*");
    reveal_strlit(" FROM ");
    reveal_strlit("SELECT * FROM ");
    assert(rendered(b) =~= "SELECT * FROM "@ + b.table + cond);
}

/// An INSERT renders its table, column list and value list in place,
/// the lists joined by commas, with the RETURNING suffix.
pub proof fn lemma_insert_shape(b: SqlBuilderView)
    requires
        b.query_type == QueryType::Insert,
    ensures
        rendered(b) == "INSERT INTO "@ + b.table + " ("@ + joined(b.insert_columns, ", "@)
            + ") VALUES ("@ + joined(b.insert_values, ", "@) + ") RETURNING *"@,
{
}

/// An UPDATE renders `column = value` for each aligned pair, in index
/// order, before its WHERE fragments and the RETURNING suffix.
pub proof fn lemma_update_shape(b: SqlBuilderView, i: int)
    requires
        b.query_type == QueryType::Update,
        0 <= i < assignment_pairs(b.update_columns, b.update_values).len(),
    ensures
        rendered(b) == "UPDATE "@ + b.table + " SET "@ + joined(
            assignment_pairs(b.update_columns, b.update_values),
            ", "@,
        ) + " "@ + joined(b.where_conditions, " "@) + " RETURNING *"@,
        assignment_pairs(b.update_columns, b.update_values)[i] == b.update_columns[i] + " = "@
            + b.update_values[i],
{
}

/// Every INSERT, UPDATE and DELETE rendering ends with `RETURNING *`:
/// the driver is always asked for the affected rows, so a caller can
/// read "no rows came back" as "no row was affected".
pub proof fn lemma_mutating_statements_return(b: SqlBuilderView)
    requires
        b.query_type == QueryType::Insert || b.query_type == QueryType::Update || b.query_type
            == QueryType::Delete,
    ensures
        rendered(b).len() > "RETURNING *"@.len(),
        rendered(b).skip(rendered(b).len() - "RETURNING *"@.len()) == "RETURNING *"@,
{
    reveal_strlit("RETURNING *");
    reveal_strlit(") RETURNING *");
    reveal_strlit(" RETURNING *");
    match b.query_type {
        QueryType::Insert => {
            assert(rendered(b).skip(rendered(b).len() - "RETURNING *"@.len())
                =~= "RETURNING *"@);
        },
        QueryType::Update => {
            assert(rendered(b).skip(rendered(b).len() - "RETURNING *"@.len())
                =~= "RETURNING *"@);
        },
        QueryType::Delete => {
            assert(rendered(b).skip(rendered(b).len() - "RETURNING *"@.len())
                =~= "RETURNING *"@);
        },
        _ => {
        },
    }
}

} // verus!
