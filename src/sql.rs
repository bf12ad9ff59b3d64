use vstd::prelude::*;
use vstd::string::{StrSliceExecFns, StringExecFns};
use crate::partition::WorkRange;
use crate::wire::{decimal, push_decimal};

verus! {

/// `s` with every double quote doubled.
pub open spec fn escaped(s: Seq<char>) -> Seq<char>
    decreases s.len(),
{
    if s.len() == 0 {
        Seq::empty()
    } else if s.last() == '"' {
        escaped(s.drop_last()) + seq!['"', '"']
    } else {
        escaped(s.drop_last()).push(s.last())
    }
}

/// A quoted SQL identifier.
pub open spec fn quoted(s: Seq<char>) -> Seq<char> {
    seq!['"'] + escaped(s) + seq!['"']
}

/// Quotes `s` as an SQL identifier: wrapped in double quotes, with each
/// double quote inside doubled.
pub fn quote_ident(s: &str) -> (r: String)
    ensures
        r@ == quoted(s@),
{
    let n = s.unicode_len();
    let mut out = String::new();
    proof {
        reveal_strlit("\"");
    }
    out.append("\"");
    let mut i: usize = 0;
    while i < n
        invariant
            n == s@.len(),
            i <= n,
            out@ == seq!['"'] + escaped(s@.take(i as int)),
        decreases n - i,
    {
        proof {
            reveal_strlit("\"\"");
            assert(s@.take(i as int + 1).drop_last() =~= s@.take(i as int));
        }
        let c = s.get_char(i);
        if c == '"' {
            out.append("\"\"");
        } else {
            let piece = s.substring_char(i, i + 1);
            assert(piece@ =~= seq![c]);
            out.append(piece);
        }
        i = i + 1;
    }
    proof {
        assert(s@.take(n as int) =~= s@);
    }
    out.append("\"");
    out
}

/// `"schema"."table"`.
pub open spec fn full_table(schema: Seq<char>, table: Seq<char>) -> Seq<char> {
    quoted(schema) + seq!['.'] + quoted(table)
}

/// Schema-qualified, quoted name of a table.
pub fn get_full_table_name(schema: &str, table: &str) -> (r: String)
    ensures
        r@ == full_table(schema@, table@),
{
    let mut out = quote_ident(schema);
    proof {
        reveal_strlit(".");
    }
    out.append(".");
    let t = quote_ident(table);
    out.append(t.as_str());
    out
}

/// The row filter: the given predicate, or "column is not null" by default.
pub open spec fn filter_sql(column: Seq<char>, filter: Option<Seq<char>>) -> Seq<char> {
    match filter {
        Some(f) => "WHERE "@ + f,
        None => "WHERE "@ + quoted(column) + " IS NOT NULL"@,
    }
}

pub open spec fn limit_sql(limit: Option<u64>) -> Seq<char> {
    match limit {
        Some(n) => "LIMIT "@ + decimal(n as nat),
        None => Seq::empty(),
    }
}

pub open spec fn opt_view(s: Option<String>) -> Option<Seq<char>> {
    match s {
        Some(v) => Some(v@),
        None => None,
    }
}

fn filter_clause(column: &str, filter: &Option<String>) -> (r: String)
    ensures
        r@ == filter_sql(column@, opt_view(*filter)),
{
    let mut out = String::new();
    out.append("WHERE ");
    match filter {
        Some(f) => {
            out.append(f.as_str());
        },
        None => {
            let q = quote_ident(column);
            out.append(q.as_str());
            out.append(" IS NOT NULL");
        },
    }
    out
}

fn limit_clause(limit: Option<u64>) -> (r: String)
    ensures
        r@ == limit_sql(limit),
{
    let mut out = String::new();
    if let Some(n) = limit {
        out.append("LIMIT ");
        push_decimal(&mut out, n);
    }
    out
}

pub open spec fn row_query(
    full: Seq<char>,
    column: Seq<char>,
    filter: Option<Seq<char>>,
    limit: Option<u64>,
) -> Seq<char> {
    "SELECT ctid::text, "@ + quoted(column) + "::text FROM "@ + full + " "@ + filter_sql(
        column,
        filter,
    ) + " "@ + limit_sql(limit) + ";"@
}

pub open spec fn count_query(
    full: Seq<char>,
    column: Seq<char>,
    filter: Option<Seq<char>>,
    limit: Option<u64>,
) -> Seq<char> {
    "SELECT COUNT(*) FROM (SELECT 1 FROM "@ + full + " "@ + filter_sql(column, filter) + " "@
        + limit_sql(limit) + ") AS src;"@
}

/// The row source query: row identity and payload as text, under the filter
/// and the optional limit.
pub fn row_source_query(full_table: &str, column: &str, filter: &Option<String>, limit: Option<u64>) -> (r: String)
    ensures
        r@ == row_query(full_table@, column@, opt_view(*filter), limit),
{
    let mut out = String::new();
    out.append("SELECT ctid::text, ");
    let q = quote_ident(column);
    out.append(q.as_str());
    out.append("::text FROM ");
    out.append(full_table);
    out.append(" ");
    let f = filter_clause(column, filter);
    out.append(f.as_str());
    out.append(" ");
    let l = limit_clause(limit);
    out.append(l.as_str());
    out.append(";");
    out
}

/// The count-estimate query: the number of rows that the row source query
/// yields, under the same filter and capped by the same limit.
pub fn row_count_query(full_table: &str, column: &str, filter: &Option<String>, limit: Option<u64>) -> (r: String)
    ensures
        r@ == count_query(full_table@, column@, opt_view(*filter), limit),
{
    let mut out = String::new();
    out.append("SELECT COUNT(*) FROM (SELECT 1 FROM ");
    out.append(full_table);
    out.append(" ");
    let f = filter_clause(column, filter);
    out.append(f.as_str());
    out.append(" ");
    let l = limit_clause(limit);
    out.append(l.as_str());
    out.append(") AS src;");
    out
}

pub open spec fn merge_sql(
    full: Seq<char>,
    column: Seq<char>,
    staging: Seq<char>,
    src_key: Seq<char>,
    dest_key: Seq<char>,
) -> Seq<char> {
    "UPDATE "@ + full + " dest SET "@ + quoted(column) + " = src."@ + quoted(column) + " FROM "@
        + quoted(staging) + " src WHERE src."@ + src_key + " = dest."@ + dest_key
}

/// The single merge statement of a flush: sets the destination column from
/// the staging relation, matching `src.<src_key>` with `dest.<dest_key>`.
pub fn merge_statement(
    full_table: &str,
    column: &str,
    staging: &str,
    src_key: &str,
    dest_key: &str,
) -> (r: String)
    ensures
        r@ == merge_sql(full_table@, column@, staging@, src_key@, dest_key@),
{
    let qc = quote_ident(column);
    let qs = quote_ident(staging);
    let mut out = String::new();
    out.append("UPDATE ");
    out.append(full_table);
    out.append(" dest SET ");
    out.append(qc.as_str());
    out.append(" = src.");
    out.append(qc.as_str());
    out.append(" FROM ");
    out.append(qs.as_str());
    out.append(" src WHERE src.");
    out.append(src_key);
    out.append(" = dest.");
    out.append(dest_key);
    out
}

/// Name of the staging relation of one compression worker: made from the
/// worker's index and a job number, so that two workers of one job, which
/// have distinct indices, never share one.
pub fn worker_staging_name(worker: u64, job: u64) -> (r: String)
    ensures
        r@ == "_lantern_pq_tmp_"@ + decimal(worker as nat) + "_"@ + decimal(job as nat),
{
    let mut out = String::new();
    out.append("_lantern_pq_tmp_");
    push_decimal(&mut out, worker);
    out.append("_");
    push_decimal(&mut out, job);
    out
}

/// Name of the staging relation of an embedding export.
pub fn export_staging_name(job: u64) -> (r: String)
    ensures
        r@ == "_lantern_tmp_"@ + decimal(job as nat),
{
    let mut out = String::new();
    out.append("_lantern_tmp_");
    push_decimal(&mut out, job);
    out
}

pub open spec fn range_sql(full: Seq<char>, key: Seq<char>, column: Seq<char>, range: WorkRange) -> Seq<char> {
    "SELECT "@ + quoted(key) + "::text, "@ + quoted(column) + " FROM "@ + full + " WHERE "@ + quoted(
        key,
    ) + " >= "@ + decimal(range.start as nat) + " AND "@ + quoted(key) + " < "@ + decimal(
        range.end as nat,
    ) + " ORDER BY "@ + quoted(key) + ";"@
}

/// The rows of one work range, key as text and payload, in key order.
pub fn range_query(full_table: &str, key: &str, column: &str, range: WorkRange) -> (r: String)
    ensures
        r@ == range_sql(full_table@, key@, column@, range),
{
    let qk = quote_ident(key);
    let qc = quote_ident(column);
    let mut out = String::new();
    out.append("SELECT ");
    out.append(qk.as_str());
    out.append("::text, ");
    out.append(qc.as_str());
    out.append(" FROM ");
    out.append(full_table);
    out.append(" WHERE ");
    out.append(qk.as_str());
    out.append(" >= ");
    push_decimal(&mut out, range.start as u64);
    out.append(" AND ");
    out.append(qk.as_str());
    out.append(" < ");
    push_decimal(&mut out, range.end as u64);
    out.append(" ORDER BY ");
    out.append(qk.as_str());
    out.append(";");
    out
}

} // verus!
