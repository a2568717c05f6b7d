use gateway::diagnostics::{
    diagnostic_dimension_sql, diagnostic_observations, diagnostic_statement_pieces, CostCoverage,
    CurrencyCostTotal, DiagnosticDimension, DiagnosticMetrics, DiagnosticRow, AGGREGATED_SQL,
    MATCHED_COLUMNS_SQL, MATCHED_FROM_SQL, SELECTED_SQL,
};
use gateway::identity::StoreError;
use gateway::usage::{SqlBind, SqlPiece, UsageRecordFilter};

fn sql(s: &str) -> SqlPiece {
    SqlPiece::Sql(s.to_owned())
}

#[test]
fn diagnostic_statement_binds_the_range_filter_and_limit() {
    let filter = UsageRecordFilter { user_id: Some("user_1".to_owned()), ..Default::default() };
    let unrecovered = vec![sql(" and mr.recovered_at is null")];
    let pieces = diagnostic_statement_pieces(
        &filter,
        DiagnosticDimension::Failure,
        10,
        20,
        "mr.completed",
        &unrecovered,
        25,
    );
    let expected = vec![
        sql("with matched as (select "),
        sql("coalesce(mr.error_kind, 'none')"),
        SqlPiece::Sql(format!("{MATCHED_COLUMNS_SQL}mr.completed{MATCHED_FROM_SQL}")),
        SqlPiece::Bind(SqlBind::Timestamp(10)),
        sql(" and mr.started_at < "),
        SqlPiece::Bind(SqlBind::Timestamp(20)),
        sql(" and mr.recovered_at is null"),
        sql(" and mr.error_kind is not null"),
        sql(" and mr.user_id = "),
        SqlPiece::Bind(SqlBind::Text("user_1".to_owned())),
        sql(AGGREGATED_SQL),
        SqlPiece::Bind(SqlBind::BigInt(25)),
        sql(SELECTED_SQL),
    ];
    assert_eq!(pieces, expected);
    assert_eq!(
        diagnostic_dimension_sql(DiagnosticDimension::Model),
        "coalesce(mr.upstream_model_id, mr.requested_model_id)"
    );
}

fn metrics(requests: u64) -> DiagnosticMetrics {
    DiagnosticMetrics {
        request_count: requests,
        success_count: requests,
        failure_count: 0,
        attempt_count: requests,
        total_tokens: 100,
        average_latency_ms: Some(5),
        latency_p95_ms: None,
        first_token_p95_ms: None,
        non_completion_count: 0,
        retry_count: 0,
        cost_coverage: CostCoverage { provider_reported: 0, calculated: requests, unavailable: 0 },
    }
}

fn row(name: &str, grouping: i32, currency: Option<&str>, amount: Option<&str>, requests: u64) -> DiagnosticRow {
    DiagnosticRow {
        dimension_name: name.to_owned(),
        currency_grouping: grouping,
        cost_currency: currency.map(str::to_owned),
        amount: amount.map(str::to_owned),
        metrics: metrics(requests),
    }
}

#[test]
fn diagnostic_rows_become_named_observations_with_their_costs() {
    let rows = vec![
        row("acct_1", 1, None, None, 5),
        row("acct_1", 0, Some("USD"), Some("1.5"), 3),
        row("acct_1", 0, Some("CNY"), None, 1),
        row("acct_1", 0, None, Some("2"), 1),
        row("acct_2", 1, None, None, 2),
        row("acct_2", 0, Some("EUR"), Some("0.1"), 2),
    ];
    let names = vec![("acct_1".to_owned(), "old".to_owned()), ("acct_1".to_owned(), "Alice".to_owned())];
    let observations = diagnostic_observations(&rows, &names).expect("observations");
    assert_eq!(observations.len(), 2);
    assert_eq!(observations[0].key, "acct_1");
    assert_eq!(observations[0].name, "Alice");
    assert_eq!(observations[0].metrics, metrics(5));
    assert_eq!(
        observations[0].costs,
        vec![CurrencyCostTotal { currency: "USD".to_owned(), amount: "1.5".to_owned() }]
    );
    assert_eq!(observations[1].name, "acct_2");
    assert_eq!(
        observations[1].costs,
        vec![CurrencyCostTotal { currency: "EUR".to_owned(), amount: "0.1".to_owned() }]
    );
}

#[test]
fn diagnostic_rows_with_an_unknown_grouping_are_refused() {
    let rows = vec![row("a", 1, None, None, 1), row("a", 2, None, None, 1)];
    assert_eq!(
        diagnostic_observations(&rows, &Vec::new()),
        Err(StoreError::Unavailable { operation: "decode usage diagnostic grouping" })
    );
}
