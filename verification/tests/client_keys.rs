use gateway::client_keys::{
    decode_client_key_cursor, encode_client_key_cursor, key_rate_limits, new_client_key_id,
    new_key_plaintext, parse_budget, validate_cursor, validate_key_text, ClientKeyBudgetPeriod,
    ClientKeyCursorData, ClientKeyCursorValue, ClientKeyListQuery, ClientKeySort,
    ClientKeySortDirection, ClientKeySortField, ListClientKeysQuery, ResetClientKeyBudgetRequest,
    DEFAULT_PAGE_SIZE,
};
use gateway::decimal::Decimal;
use gateway::policy::{PlaintextClientApiKey, RateLimits};

fn created_desc() -> ClientKeySort {
    ClientKeySort { field: ClientKeySortField::CreatedAt, direction: ClientKeySortDirection::Desc }
}

fn list_query() -> ListClientKeysQuery {
    ListClientKeysQuery { cursor: None, limit: None, search: None, sort_by: None, sort_direction: None }
}

#[test]
fn sort_order_parses_wire_names_field_first() {
    assert_eq!(
        ClientKeySort::parse("lastUsedAt", "asc"),
        Ok(ClientKeySort { field: ClientKeySortField::LastUsedAt, direction: ClientKeySortDirection::Asc })
    );
    assert_eq!(ClientKeySort::parse("created_at", "up").unwrap_err().field, "sortBy");
    assert_eq!(ClientKeySort::parse("name", "up").unwrap_err().field, "sortDirection");
}

#[test]
fn list_query_defaults_and_drops_blank_search() {
    let request = ListClientKeysQuery { search: Some("   ".to_owned()), ..list_query() }
        .into_command()
        .expect("valid");
    assert_eq!(request.page_size, DEFAULT_PAGE_SIZE);
    assert_eq!(request.search, None);
    assert_eq!(request.sort, created_desc());
    assert!(request.cursor_json.is_none());
    let trimmed = ListClientKeysQuery { search: Some(" prod ".to_owned()), limit: Some(5), ..list_query() }
        .into_command()
        .expect("valid");
    assert_eq!(trimmed.search.as_deref(), Some("prod"));
    assert_eq!(trimmed.page_size, 5);
}

#[test]
fn list_query_names_the_first_bad_field() {
    let zero = ListClientKeysQuery { limit: Some(0), ..list_query() };
    assert_eq!(zero.into_command().unwrap_err().field, "limit");
    let long_search = ListClientKeysQuery { search: Some("s".repeat(257)), ..list_query() };
    assert_eq!(long_search.into_command().unwrap_err().field, "search");
    let sort = ListClientKeysQuery { sort_by: Some("id".to_owned()), ..list_query() };
    assert_eq!(sort.into_command().unwrap_err().field, "sortBy");
    let empty_cursor = ListClientKeysQuery { cursor: Some(String::new()), ..list_query() };
    assert_eq!(empty_cursor.into_command().unwrap_err().field, "cursor");
    let bad_cursor = ListClientKeysQuery { cursor: Some("***".to_owned()), ..list_query() };
    assert_eq!(bad_cursor.into_command().unwrap_err().field, "cursor");
}

#[test]
fn cursor_text_round_trips_the_serialized_cursor() {
    let cursor = ClientKeyCursorData {
        sort: created_desc(),
        value: ClientKeyCursorValue::CreatedAt(1_700_000_000_000_000),
        id: "key_1".to_owned(),
    };
    let json = br#"{"sort":"createdAt","id":"key_1"}"#;
    let text = encode_client_key_cursor(&cursor, json).expect("encoded");
    assert_eq!(text, "eyJzb3J0IjoiY3JlYXRlZEF0IiwiaWQiOiJrZXlfMSJ9");
    assert_eq!(decode_client_key_cursor(&text).expect("decoded"), json.to_vec());
    let request = ListClientKeysQuery { cursor: Some(text), ..list_query() }
        .into_command()
        .expect("valid");
    assert_eq!(request.cursor_json.as_deref(), Some(&json[..]));
    let query = request.with_cursor(Some(cursor)).expect("cursor");
    assert!(validate_cursor(&query).is_ok());
}

#[test]
fn cursor_value_must_match_its_sort_field() {
    let mismatched = ClientKeyCursorData {
        sort: created_desc(),
        value: ClientKeyCursorValue::Name("alpha".to_owned()),
        id: "key_1".to_owned(),
    };
    assert_eq!(encode_client_key_cursor(&mismatched, b"{}").unwrap_err().field, "cursor");
    let blank_id = ClientKeyCursorData {
        sort: created_desc(),
        value: ClientKeyCursorValue::CreatedAt(1),
        id: "  ".to_owned(),
    };
    assert!(encode_client_key_cursor(&blank_id, b"{}").is_err());
    let other_sort = ClientKeyListQuery {
        cursor: Some(
            ClientKeyCursorData {
                sort: ClientKeySort { field: ClientKeySortField::Name, direction: ClientKeySortDirection::Asc },
                value: ClientKeyCursorValue::Name("alpha".to_owned()),
                id: "key_1".to_owned(),
            }
            .into_domain()
            .expect("cursor"),
        ),
        page_size: 10,
        search: None,
        sort: created_desc(),
    };
    assert!(validate_cursor(&other_sort).is_err());
}

#[test]
fn budget_reset_request_checks_the_key_id() {
    let blank = ResetClientKeyBudgetRequest { id: " ".to_owned(), period: ClientKeyBudgetPeriod::All };
    assert_eq!(blank.into_command().unwrap_err().field, "id");
    let bad = ResetClientKeyBudgetRequest { id: "key\u{7}".to_owned(), period: ClientKeyBudgetPeriod::Daily };
    assert_eq!(bad.into_command().unwrap_err().field, "clientKeyMutationNotFound");
    let ok = ResetClientKeyBudgetRequest { id: "key_1".to_owned(), period: ClientKeyBudgetPeriod::Weekly }
        .into_command()
        .expect("valid");
    assert_eq!(ok.id.as_str(), "key_1");
    assert_eq!(ok.period, ClientKeyBudgetPeriod::Weekly);
}

#[test]
fn key_text_limits_and_budgets_are_checked_per_field() {
    assert!(validate_key_text("prod", Some("ci")).is_ok());
    assert_eq!(validate_key_text(" ", None).unwrap_err().field, "name");
    assert_eq!(validate_key_text("prod", Some("a\nb")).unwrap_err().field, "label");
    assert_eq!(
        key_rate_limits(3, 60),
        Ok(RateLimits { max_concurrency: 3, requests_per_minute: 60 })
    );
    assert_eq!(key_rate_limits(u64::MAX, 1).unwrap_err().field, "maxConcurrency");
    assert_eq!(key_rate_limits(1, 1 << 63).unwrap_err().field, "requestsPerMinute");
    assert_eq!(parse_budget(None, "dailyLimitUsd"), Ok(None));
    assert_eq!(
        parse_budget(Some("12.5".to_owned()), "dailyLimitUsd"),
        Ok(Some(Decimal::parse("12.5").expect("decimal")))
    );
    assert_eq!(parse_budget(Some("-1".to_owned()), "weeklyLimitUsd").unwrap_err().field, "weeklyLimitUsd");
}

#[test]
fn generated_keys_have_their_documented_shapes() {
    let id = new_client_key_id().expect("id");
    assert!(id.as_str().starts_with("key_"));
    assert_eq!(id.as_str().len(), 36);
    let plaintext = new_key_plaintext(None).expect("key");
    assert_eq!(plaintext.len(), 46);
    assert!(plaintext.starts_with("sk_"));
    assert_ne!(plaintext, new_key_plaintext(None).expect("key"));
    let custom = PlaintextClientApiKey::new("sk-migrated-0001").expect("custom");
    assert_eq!(new_key_plaintext(Some(&custom)), Ok("sk-migrated-0001".to_owned()));
}
