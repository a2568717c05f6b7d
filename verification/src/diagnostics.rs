//! Usage diagnostics: the statement that groups the matching requests by one
//! dimension, with a total row and one row per cost currency for each of the
//! busiest dimension values, and the observations read back from its rows.

use vstd::prelude::*;

use crate::identity::StoreError;
use crate::recovery::lemma_filter_push;
use crate::text::{push_text, str_eq};
use crate::usage::{
    piece_view, pieces_view, push_piece, usage_filter_pieces, usage_filter_spec, PieceView, SqlBind,
    SqlPiece, UsageRecordFilter,
};

verus! {

/// What the matching requests are grouped by.
#[derive(Debug, Clone, Copy, PartialEq, Eq, Structural)]
pub enum DiagnosticDimension {
    Provider,
    Model,
    Account,
    ApiKey,
    Transport,
    Failure,
    Status,
}

/// The model a request asked for, or the one upstream answered with.
pub const MODEL_DIMENSION_SQL: &'static str = "coalesce(mr.upstream_model_id, mr.requested_model_id)";

/// The selected columns after the dimension, up to the completed-usage predicate.
pub const MATCHED_COLUMNS_SQL: &'static str = " as dimension_name, mr.outcome, mr.attempt_count, mr.total_tokens,
                mr.latency_ms, mr.first_token_ms, mr.cost_source, mr.cost_amount,
                mr.cost_currency, mr.downstream_committed_at, mr.client_transport,
                mr.client_status_code, (";

/// The rest of the selection, up to the start of the time range.
pub const MATCHED_FROM_SQL: &'static str = ") as is_completed_usage
         from model_requests mr where mr.started_at >= ";

/// The aggregation by dimension and currency, up to the limit of dimensions.
pub const AGGREGATED_SQL: &'static str = "), aggregated as (
           select dimension_name, cost_currency,
                  grouping(cost_currency)::integer as currency_grouping,
                  count(*)::bigint as request_count,
                  count(*) filter (where outcome = 'succeeded')::bigint as success_count,
                  count(*) filter (where outcome = 'failed')::bigint as failure_count,
                  coalesce(sum(attempt_count), 0)::bigint as attempt_count,
                  coalesce(sum(total_tokens) filter (where is_completed_usage), 0)::bigint
                    as total_tokens,
                  round(avg(latency_ms) filter (where is_completed_usage))::bigint
                    as average_latency_ms,
                  round(percentile_cont(0.95) within group (order by latency_ms)
                    filter (where is_completed_usage))::bigint
                    as latency_p95_ms,
                  round(percentile_cont(0.95) within group (order by first_token_ms)
                    filter (where is_completed_usage))::bigint
                    as first_token_p95_ms,
                  count(*) filter (where outcome in ('cancelled', 'incomplete'))::bigint
                    as non_completion_count,
                  coalesce(sum(greatest(attempt_count - 1, 0)), 0)::bigint as retry_count,
                  count(*) filter (
                    where is_completed_usage and cost_source = 'provider_reported'
                  )::bigint
                    as provider_reported_count,
                  count(*) filter (
                    where is_completed_usage and cost_source = 'calculated'
                  )::bigint
                    as calculated_count,
                  count(*) filter (
                    where is_completed_usage and cost_source = 'unavailable'
                  )::bigint
                    as unavailable_count,
                  sum(cost_amount) filter (
                    where is_completed_usage
                  )::text as amount
             from matched
            group by dimension_name, grouping sets ((), (cost_currency))
         ), selected_dimensions as (
           select dimension_name,
                  row_number() over (order by request_count desc, dimension_name)
                    as sort_position
             from aggregated
            where currency_grouping = 1
            order by request_count desc, dimension_name limit ";

/// The final selection, busiest dimensions first, each total before its currencies.
pub const SELECTED_SQL: &'static str = ")
         select aggregated.*
           from aggregated
           join selected_dimensions selected using (dimension_name)
          order by selected.sort_position, currency_grouping desc, cost_currency nulls last";

/// The SQL expression of a dimension over the requests aliased `mr`.
pub open spec fn dimension_sql_text(d: DiagnosticDimension) -> Seq<char> {
    match d {
        DiagnosticDimension::Provider => "coalesce(mr.provider_kind, 'unrouted')"@,
        DiagnosticDimension::Model => MODEL_DIMENSION_SQL@,
        DiagnosticDimension::Account => "coalesce(mr.provider_account_ref, 'unrouted')"@,
        DiagnosticDimension::ApiKey => "mr.client_api_key_ref"@,
        DiagnosticDimension::Transport => "coalesce(mr.upstream_transport, mr.client_transport, 'unknown')"@,
        DiagnosticDimension::Failure => "coalesce(mr.error_kind, 'none')"@,
        DiagnosticDimension::Status => "coalesce(mr.upstream_status_code, mr.client_status_code)::text"@,
    }
}

/// The SQL expression of a dimension.
pub fn diagnostic_dimension_sql(d: DiagnosticDimension) -> (r: &'static str)
    ensures
        r@ == dimension_sql_text(d),
{
    match d {
        DiagnosticDimension::Provider => "coalesce(mr.provider_kind, 'unrouted')",
        DiagnosticDimension::Model => MODEL_DIMENSION_SQL,
        DiagnosticDimension::Account => "coalesce(mr.provider_account_ref, 'unrouted')",
        DiagnosticDimension::ApiKey => "mr.client_api_key_ref",
        DiagnosticDimension::Transport => "coalesce(mr.upstream_transport, mr.client_transport, 'unknown')",
        DiagnosticDimension::Failure => "coalesce(mr.error_kind, 'none')",
        DiagnosticDimension::Status => "coalesce(mr.upstream_status_code, mr.client_status_code)::text",
    }
}

/// The condition that leaves out requests without a value for the dimension.
pub open spec fn dimension_filter_spec(d: DiagnosticDimension) -> Seq<PieceView> {
    match d {
        DiagnosticDimension::Failure => seq![PieceView::Sql(" and mr.error_kind is not null"@)],
        DiagnosticDimension::Model => seq![
            PieceView::Sql(" and "@),
            PieceView::Sql(MODEL_DIMENSION_SQL@),
            PieceView::Sql(" is not null"@),
        ],
        DiagnosticDimension::Status => seq![
            PieceView::Sql(" and coalesce(mr.upstream_status_code, mr.client_status_code) is not null"@),
        ],
        _ => Seq::<PieceView>::empty(),
    }
}

fn push_dimension_filter(out: &mut Vec<SqlPiece>, d: DiagnosticDimension)
    ensures
        pieces_view(final(out)@) == pieces_view(old(out)@) + dimension_filter_spec(d),
{
    match d {
        DiagnosticDimension::Failure => {
            push_piece(out, SqlPiece::Sql(" and mr.error_kind is not null".to_owned()));
        },
        DiagnosticDimension::Model => {
            push_piece(out, SqlPiece::Sql(" and ".to_owned()));
            push_piece(out, SqlPiece::Sql(MODEL_DIMENSION_SQL.to_owned()));
            push_piece(out, SqlPiece::Sql(" is not null".to_owned()));
        },
        DiagnosticDimension::Status => {
            push_piece(
                out,
                SqlPiece::Sql(" and coalesce(mr.upstream_status_code, mr.client_status_code) is not null".to_owned()),
            );
        },
        _ => {},
    }
    assert(pieces_view(out@) =~= pieces_view(old(out)@) + dimension_filter_spec(d));
}

/// The diagnostic statement over the requests started in `[start, end)` that
/// pass `filter`. `completed_usage` is the SQL predicate that a request's usage
/// is complete, `unrecovered` the condition that leaves out requests still being
/// recovered, and `limit` the number of dimension values kept.
pub open spec fn diagnostic_statement_spec(
    filter: UsageRecordFilter,
    dimension: DiagnosticDimension,
    start: i64,
    end: i64,
    completed_usage: Seq<char>,
    unrecovered: Seq<PieceView>,
    limit: i64,
) -> Seq<PieceView> {
    seq![
        PieceView::Sql("with matched as (select "@),
        PieceView::Sql(dimension_sql_text(dimension)),
        PieceView::Sql(MATCHED_COLUMNS_SQL@ + completed_usage + MATCHED_FROM_SQL@),
        PieceView::Timestamp(start),
        PieceView::Sql(" and mr.started_at < "@),
        PieceView::Timestamp(end),
    ] + unrecovered + dimension_filter_spec(dimension) + usage_filter_spec(filter, "mr"@) + seq![
        PieceView::Sql(AGGREGATED_SQL@),
        PieceView::BigInt(limit),
        PieceView::Sql(SELECTED_SQL@),
    ]
}

fn append_pieces(out: &mut Vec<SqlPiece>, more: Vec<SqlPiece>)
    ensures
        pieces_view(final(out)@) == pieces_view(old(out)@) + pieces_view(more@),
{
    let mut more = more;
    let ghost m = more@;
    out.append(&mut more);
    assert(pieces_view(out@) =~= pieces_view(old(out)@) + pieces_view(m));
}

fn copy_pieces(v: &Vec<SqlPiece>) -> (r: Vec<SqlPiece>)
    ensures
        pieces_view(r@) == pieces_view(v@),
{
    let mut out: Vec<SqlPiece> = Vec::new();
    let mut i: usize = 0;
    while i < v.len()
        invariant
            i <= v.len(),
            pieces_view(out@) == pieces_view(v@.take(i as int)),
        decreases v.len() - i,
    {
        let piece = match &v[i] {
            SqlPiece::Sql(s) => SqlPiece::Sql(s.clone()),
            SqlPiece::Bind(SqlBind::Text(t)) => SqlPiece::Bind(SqlBind::Text(t.clone())),
            SqlPiece::Bind(SqlBind::Int(x)) => SqlPiece::Bind(SqlBind::Int(*x)),
            SqlPiece::Bind(SqlBind::Bytes(b)) => SqlPiece::Bind(SqlBind::Bytes(b.clone())),
            SqlPiece::Bind(SqlBind::Timestamp(t)) => SqlPiece::Bind(SqlBind::Timestamp(*t)),
            SqlPiece::Bind(SqlBind::BigInt(x)) => SqlPiece::Bind(SqlBind::BigInt(*x)),
        };
        assert(piece_view(piece) == piece_view(v@[i as int]));
        push_piece(&mut out, piece);
        assert(v@.take(i + 1) =~= v@.take(i as int).push(v@[i as int]));
        assert(pieces_view(v@.take(i + 1)) =~= pieces_view(v@.take(i as int)).push(piece_view(v@[i as int])));
        i = i + 1;
    }
    assert(v@.take(v.len() as int) =~= v@);
    out
}

/// The diagnostic statement, as SQL text and bound values in order.
pub fn diagnostic_statement_pieces(
    filter: &UsageRecordFilter,
    dimension: DiagnosticDimension,
    start: i64,
    end: i64,
    completed_usage: &str,
    unrecovered: &Vec<SqlPiece>,
    limit: i64,
) -> (r: Vec<SqlPiece>)
    ensures
        pieces_view(r@) == diagnostic_statement_spec(
            *filter,
            dimension,
            start,
            end,
            completed_usage@,
            pieces_view(unrecovered@),
            limit,
        ),
{
    let mut out: Vec<SqlPiece> = Vec::new();
    push_piece(&mut out, SqlPiece::Sql("with matched as (select ".to_owned()));
    push_piece(&mut out, SqlPiece::Sql(diagnostic_dimension_sql(dimension).to_owned()));
    let mut columns = String::new();
    push_text(&mut columns, MATCHED_COLUMNS_SQL);
    push_text(&mut columns, completed_usage);
    push_text(&mut columns, MATCHED_FROM_SQL);
    push_piece(&mut out, SqlPiece::Sql(columns));
    push_piece(&mut out, SqlPiece::Bind(SqlBind::Timestamp(start)));
    push_piece(&mut out, SqlPiece::Sql(" and mr.started_at < ".to_owned()));
    push_piece(&mut out, SqlPiece::Bind(SqlBind::Timestamp(end)));
    let ghost head = pieces_view(out@);
    append_pieces(&mut out, copy_pieces(unrecovered));
    push_dimension_filter(&mut out, dimension);
    append_pieces(&mut out, usage_filter_pieces(filter, "mr"));
    let ghost body = pieces_view(out@);
    push_piece(&mut out, SqlPiece::Sql(AGGREGATED_SQL.to_owned()));
    push_piece(&mut out, SqlPiece::Bind(SqlBind::BigInt(limit)));
    push_piece(&mut out, SqlPiece::Sql(SELECTED_SQL.to_owned()));
    assert(pieces_view(out@) =~= diagnostic_statement_spec(
        *filter,
        dimension,
        start,
        end,
        completed_usage@,
        pieces_view(unrecovered@),
        limit,
    ));
    out
}

/// How the requests of a dimension value were costed.
#[derive(Debug, Clone, Copy, PartialEq, Eq, Structural)]
pub struct CostCoverage {
    pub provider_reported: u64,
    pub calculated: u64,
    pub unavailable: u64,
}

/// The figures of one dimension value.
#[derive(Debug, Clone, Copy, PartialEq, Eq, Structural)]
pub struct DiagnosticMetrics {
    pub request_count: u64,
    pub success_count: u64,
    pub failure_count: u64,
    pub attempt_count: u64,
    pub total_tokens: u64,
    pub average_latency_ms: Option<u64>,
    pub latency_p95_ms: Option<u64>,
    pub first_token_p95_ms: Option<u64>,
    pub non_completion_count: u64,
    pub retry_count: u64,
    pub cost_coverage: CostCoverage,
}

/// One row of the diagnostic statement: grouping 1 is the total of a dimension
/// value, grouping 0 its share in one cost currency.
#[derive(Debug, Clone, PartialEq, Eq)]
pub struct DiagnosticRow {
    pub dimension_name: String,
    pub currency_grouping: i32,
    pub cost_currency: Option<String>,
    pub amount: Option<String>,
    pub metrics: DiagnosticMetrics,
}

/// The cost of a dimension value in one currency; the amount is decimal text.
#[derive(Debug, Clone, PartialEq, Eq)]
pub struct CurrencyCostTotal {
    pub currency: String,
    pub amount: String,
}

/// What the diagnostics report of one dimension value.
#[derive(Debug, Clone, PartialEq, Eq)]
pub struct DiagnosticObservation {
    pub key: String,
    pub name: String,
    pub metrics: DiagnosticMetrics,
    pub costs: Vec<CurrencyCostTotal>,
}

/// Every row is a total or a currency share.
pub open spec fn groupings_ok(rows: Seq<DiagnosticRow>) -> bool {
    forall|i: int| 0 <= i < rows.len() ==> (#[trigger] rows[i].currency_grouping == 0 || rows[i].currency_grouping == 1)
}

pub open spec fn is_total(r: DiagnosticRow) -> bool {
    r.currency_grouping == 1
}

/// The total rows, in order: one observation each.
pub open spec fn total_rows(rows: Seq<DiagnosticRow>) -> Seq<DiagnosticRow> {
    rows.filter(|r: DiagnosticRow| is_total(r))
}

pub open spec fn is_cost_of(r: DiagnosticRow, key: Seq<char>) -> bool {
    r.currency_grouping == 0 && r.cost_currency is Some && r.amount is Some && r.dimension_name@ == key
}

/// The currency shares of `key` that have both a currency and an amount, in order.
pub open spec fn cost_rows(rows: Seq<DiagnosticRow>, key: Seq<char>) -> Seq<DiagnosticRow> {
    rows.filter(|r: DiagnosticRow| is_cost_of(r, key))
}

pub open spec fn row_cost(r: DiagnosticRow) -> (Seq<char>, Seq<char>) {
    (r.cost_currency->0@, r.amount->0@)
}

pub open spec fn cost_view(c: CurrencyCostTotal) -> (Seq<char>, Seq<char>) {
    (c.currency@, c.amount@)
}

/// The display name given for `key`; the last given wins.
pub open spec fn name_lookup(names: Seq<(String, String)>, key: Seq<char>) -> Option<Seq<char>>
    decreases names.len(),
{
    if names.len() == 0 {
        None
    } else if names.last().0@ == key {
        Some(names.last().1@)
    } else {
        name_lookup(names.drop_last(), key)
    }
}

/// The observation a total row gives: its key, its display name (the key when
/// none is given), its figures and its costs.
pub open spec fn observation_of(
    o: DiagnosticObservation,
    row: DiagnosticRow,
    rows: Seq<DiagnosticRow>,
    names: Seq<(String, String)>,
) -> bool {
    &&& o.key@ == row.dimension_name@
    &&& o.name@ == match name_lookup(names, row.dimension_name@) {
        Some(n) => n,
        None => row.dimension_name@,
    }
    &&& o.metrics == row.metrics
    &&& o.costs@.map_values(|c: CurrencyCostTotal| cost_view(c)) == cost_rows(rows, row.dimension_name@).map_values(
        |r: DiagnosticRow| row_cost(r),
    )
}

fn all_groupings_known(rows: &Vec<DiagnosticRow>) -> (r: bool)
    ensures
        r == groupings_ok(rows@),
{
    let mut i: usize = 0;
    while i < rows.len()
        invariant
            i <= rows.len(),
            forall|k: int| 0 <= k < i ==> (#[trigger] rows@[k].currency_grouping == 0 || rows@[k].currency_grouping == 1),
        decreases rows.len() - i,
    {
        if rows[i].currency_grouping != 0 && rows[i].currency_grouping != 1 {
            assert(!(rows@[i as int].currency_grouping == 0 || rows@[i as int].currency_grouping == 1));
            return false;
        }
        i = i + 1;
    }
    true
}

fn display_name(names: &Vec<(String, String)>, key: &str) -> (r: Option<String>)
    ensures
        match r {
            Some(n) => name_lookup(names@, key@) == Some(n@),
            None => name_lookup(names@, key@) is None,
        },
{
    let mut i: usize = names.len();
    assert(names@.take(i as int) =~= names@);
    while i > 0
        invariant
            i <= names.len(),
            name_lookup(names@, key@) == name_lookup(names@.take(i as int), key@),
        decreases i,
    {
        let ghost t = names@.take(i as int);
        assert(t.last() == names@[i - 1]);
        assert(t.drop_last() =~= names@.take(i - 1));
        if str_eq(names[i - 1].0.as_str(), key) {
            return Some(names[i - 1].1.clone());
        }
        i = i - 1;
    }
    None
}

fn costs_for(rows: &Vec<DiagnosticRow>, key: &str) -> (r: Vec<CurrencyCostTotal>)
    ensures
        r@.map_values(|c: CurrencyCostTotal| cost_view(c)) == cost_rows(rows@, key@).map_values(
            |r: DiagnosticRow| row_cost(r),
        ),
{
    let mut out: Vec<CurrencyCostTotal> = Vec::new();
    let mut i: usize = 0;
    while i < rows.len()
        invariant
            i <= rows.len(),
            out@.map_values(|c: CurrencyCostTotal| cost_view(c)) == cost_rows(rows@.take(i as int), key@).map_values(
                |r: DiagnosticRow| row_cost(r),
            ),
        decreases rows.len() - i,
    {
        proof {
            assert(rows@.take(i + 1) =~= rows@.take(i as int).push(rows@[i as int]));
            lemma_filter_push(rows@.take(i as int), rows@[i as int], |r: DiagnosticRow| is_cost_of(r, key@));
        }
        let row = &rows[i];
        if row.currency_grouping == 0 && str_eq(row.dimension_name.as_str(), key) {
            match (&row.cost_currency, &row.amount) {
                (Some(c), Some(a)) => {
                    let ghost before = out@;
                    let cost = CurrencyCostTotal { currency: c.clone(), amount: a.clone() };
                    out.push(cost);
                    proof {
                        assert(out@ =~= before.push(cost));
                        assert(out@.map_values(|c: CurrencyCostTotal| cost_view(c)) =~= before.map_values(
                            |c: CurrencyCostTotal| cost_view(c),
                        ).push(cost_view(cost)));
                        assert(cost_rows(rows@.take(i + 1), key@) == cost_rows(rows@.take(i as int), key@).push(rows@[i as int]));
                        assert(cost_rows(rows@.take(i + 1), key@).map_values(|r: DiagnosticRow| row_cost(r))
                            =~= cost_rows(rows@.take(i as int), key@).map_values(|r: DiagnosticRow| row_cost(r)).push(
                            row_cost(rows@[i as int]),
                        ));
                    }
                },
                _ => {},
            }
        }
        i = i + 1;
    }
    assert(rows@.take(rows.len() as int) =~= rows@);
    out
}

/// The observations of the diagnostic statement's rows, given the display names
/// of their keys (none for dimensions without display names): one per total row,
/// in row order, each with its currency costs. A row whose grouping is neither 0
/// nor 1 cannot be decoded, and the rows are refused (`Unavailable`).
pub fn diagnostic_observations(rows: &Vec<DiagnosticRow>, names: &Vec<(String, String)>) -> (r: Result<
    Vec<DiagnosticObservation>,
    StoreError,
>)
    ensures
        r is Err <==> !groupings_ok(rows@),
        r matches Err(e) ==> e == (StoreError::Unavailable { operation: "decode usage diagnostic grouping" }),
        r matches Ok(obs) ==> obs@.len() == total_rows(rows@).len() && forall|i: int|
            0 <= i < obs@.len() ==> observation_of(#[trigger] obs@[i], total_rows(rows@)[i], rows@, names@),
{
    if !all_groupings_known(rows) {
        return Err(StoreError::Unavailable { operation: "decode usage diagnostic grouping" });
    }
    let mut out: Vec<DiagnosticObservation> = Vec::new();
    let mut i: usize = 0;
    while i < rows.len()
        invariant
            i <= rows.len(),
            out@.len() == total_rows(rows@.take(i as int)).len(),
            forall|j: int|
                0 <= j < out@.len() ==> observation_of(#[trigger] out@[j], total_rows(rows@.take(i as int))[j], rows@, names@),
        decreases rows.len() - i,
    {
        proof {
            assert(rows@.take(i + 1) =~= rows@.take(i as int).push(rows@[i as int]));
            lemma_filter_push(rows@.take(i as int), rows@[i as int], |r: DiagnosticRow| is_total(r));
        }
        let row = &rows[i];
        if row.currency_grouping == 1 {
            let name = match display_name(names, row.dimension_name.as_str()) {
                Some(n) => n,
                None => row.dimension_name.clone(),
            };
            let o = DiagnosticObservation {
                key: row.dimension_name.clone(),
                name,
                metrics: row.metrics,
                costs: costs_for(rows, row.dimension_name.as_str()),
            };
            let ghost before = out@;
            out.push(o);
            proof {
                let t = total_rows(rows@.take(i + 1));
                assert(t == total_rows(rows@.take(i as int)).push(rows@[i as int]));
                assert forall|j: int| 0 <= j < out@.len() implies observation_of(
                    #[trigger] out@[j],
                    t[j],
                    rows@,
                    names@,
                ) by {
                    if j < before.len() {
                        assert(out@[j] == before[j]);
                    }
                }
            }
        }
        i = i + 1;
    }
    assert(rows@.take(rows.len() as int) =~= rows@);
    Ok(out)
}

} // verus!
