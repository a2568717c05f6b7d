//! Client API keys owned by a signed-in user: list queries with their opaque
//! cursor, the create, update, reset and delete requests, and the rules the key
//! service applies before the store is asked.

use vstd::prelude::*;

use crate::budget::ClientBudgetLimits;
use crate::crypto::{base64_url, base64_url_decode, base64_url_encode, random_bytes_32, uuid_v7_text};
use crate::decimal::{parse_decimal_text, Decimal};
use crate::error::{AdminError, AdminErrorKind, WireValidationError};
use crate::policy::{identifier_error, plaintext_key_error, ClientApiKeyId, PlaintextClientApiKey, RateLimits};
use crate::text::{byte_len, contains_control, has_control, is_blank, push_text, str_byte_len, str_eq, trim, trim_seq};
use crate::users::{generated_id, new_prefixed_id, ID_FAILURE};

verus! {

/// Largest cursor accepted on the wire, in bytes.
pub const MAX_CURSOR_BYTES: usize = 512;

/// Largest search text, in bytes once trimmed.
pub const MAX_SEARCH_BYTES: usize = 256;

/// Rows per page when the query names none.
pub const DEFAULT_PAGE_SIZE: u16 = 50;

#[derive(Debug, Clone, Copy, PartialEq, Eq, Structural)]
pub enum ClientKeySortField {
    Name,
    Enabled,
    CreatedAt,
    LastUsedAt,
}

#[derive(Debug, Clone, Copy, PartialEq, Eq, Structural)]
pub enum ClientKeySortDirection {
    Asc,
    Desc,
}

/// A checked sort order; it is also written into every cursor.
#[derive(Debug, Clone, Copy, PartialEq, Eq, Structural)]
pub struct ClientKeySort {
    pub field: ClientKeySortField,
    pub direction: ClientKeySortDirection,
}

/// The sort field a wire name stands for.
pub open spec fn sort_field_of(s: Seq<char>) -> Option<ClientKeySortField> {
    if s == "name"@ {
        Some(ClientKeySortField::Name)
    } else if s == "enabled"@ {
        Some(ClientKeySortField::Enabled)
    } else if s == "createdAt"@ {
        Some(ClientKeySortField::CreatedAt)
    } else if s == "lastUsedAt"@ {
        Some(ClientKeySortField::LastUsedAt)
    } else {
        None
    }
}

/// The sort direction a wire name stands for.
pub open spec fn sort_direction_of(s: Seq<char>) -> Option<ClientKeySortDirection> {
    if s == "asc"@ {
        Some(ClientKeySortDirection::Asc)
    } else if s == "desc"@ {
        Some(ClientKeySortDirection::Desc)
    } else {
        None
    }
}

impl ClientKeySort {
    /// Parses a sort field and direction; the field is checked first.
    pub fn parse(field: &str, direction: &str) -> (r: Result<ClientKeySort, WireValidationError>)
        ensures
            match (sort_field_of(field@), sort_direction_of(direction@)) {
                (Some(f), Some(d)) => r == Ok::<ClientKeySort, WireValidationError>(
                    ClientKeySort { field: f, direction: d },
                ),
                (None, _) => r == Err::<ClientKeySort, WireValidationError>(
                    WireValidationError { field: "sortBy" },
                ),
                (Some(_), None) => r == Err::<ClientKeySort, WireValidationError>(
                    WireValidationError { field: "sortDirection" },
                ),
            },
    {
        let field = if str_eq(field, "name") {
            ClientKeySortField::Name
        } else if str_eq(field, "enabled") {
            ClientKeySortField::Enabled
        } else if str_eq(field, "createdAt") {
            ClientKeySortField::CreatedAt
        } else if str_eq(field, "lastUsedAt") {
            ClientKeySortField::LastUsedAt
        } else {
            return Err(WireValidationError::new("sortBy"));
        };
        let direction = if str_eq(direction, "asc") {
            ClientKeySortDirection::Asc
        } else if str_eq(direction, "desc") {
            ClientKeySortDirection::Desc
        } else {
            return Err(WireValidationError::new("sortDirection"));
        };
        Ok(ClientKeySort { field, direction })
    }
}

/// The sort value of the last row of a page, of the kind the sort field names.
/// Instants are microseconds since the epoch.
#[derive(Debug, PartialEq, Eq)]
pub enum ClientKeyCursorValue {
    Name(String),
    Enabled(bool),
    CreatedAt(i64),
    LastUsedAt(Option<i64>),
}

impl Clone for ClientKeyCursorValue {
    fn clone(&self) -> (r: Self)
        ensures
            r == *self,
    {
        match self {
            ClientKeyCursorValue::Name(v) => ClientKeyCursorValue::Name(v.clone()),
            ClientKeyCursorValue::Enabled(v) => ClientKeyCursorValue::Enabled(*v),
            ClientKeyCursorValue::CreatedAt(v) => ClientKeyCursorValue::CreatedAt(*v),
            ClientKeyCursorValue::LastUsedAt(v) => ClientKeyCursorValue::LastUsedAt(*v),
        }
    }
}

/// A cursor as carried on the wire.
#[derive(Debug, Clone, PartialEq, Eq)]
pub struct ClientKeyCursorData {
    pub sort: ClientKeySort,
    pub value: ClientKeyCursorValue,
    pub id: String,
}

/// A cursor once its key identifier is checked.
#[derive(Debug, Clone, PartialEq, Eq)]
pub struct ClientKeyCursor {
    pub sort: ClientKeySort,
    pub value: ClientKeyCursorValue,
    pub id: ClientApiKeyId,
}

/// The cursor value is of the kind its sort field names; a name is not blank.
pub open spec fn cursor_value_matches(field: ClientKeySortField, value: ClientKeyCursorValue) -> bool {
    match (field, value) {
        (ClientKeySortField::Name, ClientKeyCursorValue::Name(v)) => trim_seq(v@).len() > 0,
        (ClientKeySortField::Enabled, ClientKeyCursorValue::Enabled(_)) => true,
        (ClientKeySortField::CreatedAt, ClientKeyCursorValue::CreatedAt(_)) => true,
        (ClientKeySortField::LastUsedAt, ClientKeyCursorValue::LastUsedAt(_)) => true,
        _ => false,
    }
}

/// Whether a cursor value is of the kind its sort field names.
pub fn value_matches_field(field: ClientKeySortField, value: &ClientKeyCursorValue) -> (r: bool)
    ensures
        r == cursor_value_matches(field, *value),
{
    match (field, value) {
        (ClientKeySortField::Name, ClientKeyCursorValue::Name(v)) => !is_blank(v.as_str()),
        (ClientKeySortField::Enabled, ClientKeyCursorValue::Enabled(_)) => true,
        (ClientKeySortField::CreatedAt, ClientKeyCursorValue::CreatedAt(_)) => true,
        (ClientKeySortField::LastUsedAt, ClientKeyCursorValue::LastUsedAt(_)) => true,
        _ => false,
    }
}

/// A well-formed cursor: a non-blank key identifier and a value that matches
/// the sort field.
pub open spec fn cursor_ok(cursor: ClientKeyCursorData) -> bool {
    trim_seq(cursor.id@).len() > 0 && cursor_value_matches(cursor.sort.field, cursor.value)
}

/// A wire cursor is refused (`cursor`) unless well formed.
pub fn validate_client_key_cursor(cursor: &ClientKeyCursorData) -> (r: Result<(), WireValidationError>)
    ensures
        r is Ok <==> cursor_ok(*cursor),
        r matches Err(e) ==> e.field == "cursor",
{
    if is_blank(cursor.id.as_str()) || !value_matches_field(cursor.sort.field, &cursor.value) {
        return Err(WireValidationError::new("cursor"));
    }
    Ok(())
}

/// A cursor text the wire accepts by size: non-empty, at most 512 bytes.
pub open spec fn cursor_text_ok(text: Seq<char>) -> bool {
    text.len() > 0 && byte_len(text) <= MAX_CURSOR_BYTES
}

/// The wire text of a cursor: the cursor is checked, then the serialized
/// cursor `json` is written as unpadded URL-safe base64.
pub fn encode_client_key_cursor(cursor: &ClientKeyCursorData, json: &[u8]) -> (r: Result<
    String,
    WireValidationError,
>)
    ensures
        r is Ok <==> cursor_ok(*cursor),
        r matches Ok(t) ==> t@ == base64_url(json@),
        r matches Err(e) ==> e.field == "cursor",
{
    validate_client_key_cursor(cursor)?;
    Ok(base64_url_encode(json))
}

/// The serialized cursor a wire text carries. The text must be non-empty, at
/// most 512 bytes and base64 as `encode_client_key_cursor` writes it; every
/// such text is read back as the bytes it encodes.
pub fn decode_client_key_cursor(encoded: &str) -> (r: Result<Vec<u8>, WireValidationError>)
    ensures
        r matches Ok(b) ==> cursor_text_ok(encoded@) && base64_url(b@) == encoded@,
        forall|b: Seq<u8>|
            cursor_text_ok(encoded@) && #[trigger] base64_url(b) == encoded@ ==> r.is_ok()
                && r.unwrap()@ == b,
        r matches Err(e) ==> e.field == "cursor",
{
    if encoded.is_empty() || str_byte_len(encoded) > MAX_CURSOR_BYTES {
        return Err(WireValidationError::new("cursor"));
    }
    match base64_url_decode(encoded) {
        Some(b) => Ok(b),
        None => Err(WireValidationError::new("cursor")),
    }
}

impl ClientKeyCursorData {
    /// Checks a wire cursor and its key identifier (`cursor` either way).
    pub fn into_domain(self) -> (r: Result<ClientKeyCursor, WireValidationError>)
        ensures
            r is Ok <==> cursor_ok(self) && identifier_error(self.id@) is None,
            r matches Ok(c) ==> c.sort == self.sort && c.value == self.value && c.id@ == self.id@,
            r matches Err(e) ==> e.field == "cursor",
    {
        validate_client_key_cursor(&self)?;
        let id = match ClientApiKeyId::new(self.id.as_str()) {
            Ok(id) => id,
            Err(_) => {
                return Err(WireValidationError::new("cursor"));
            },
        };
        Ok(ClientKeyCursor { sort: self.sort, value: self.value, id })
    }
}

impl ClientKeyCursor {
    /// The wire form of a cursor the store handed back, checked as any cursor.
    pub fn to_wire(&self) -> (r: Result<ClientKeyCursorData, WireValidationError>)
        ensures
            r matches Ok(c) ==> c.sort == self.sort && c.value == self.value && c.id@ == self.id@,
            r is Ok <==> trim_seq(self.id@).len() > 0 && cursor_value_matches(
                self.sort.field,
                self.value,
            ),
            r matches Err(e) ==> e.field == "cursor",
    {
        let cursor = ClientKeyCursorData {
            sort: self.sort,
            value: self.value.clone(),
            id: self.id.as_str().to_owned(),
        };
        validate_client_key_cursor(&cursor)?;
        Ok(cursor)
    }
}

/// A key list query as it arrives on the wire.
#[derive(Debug, Clone, PartialEq, Eq)]
pub struct ListClientKeysQuery {
    pub cursor: Option<String>,
    pub limit: Option<u16>,
    pub search: Option<String>,
    pub sort_by: Option<String>,
    pub sort_direction: Option<String>,
}

/// A key list query whose fields are checked, holding the serialized cursor
/// its wire cursor decoded to.
#[derive(Debug, Clone, PartialEq, Eq)]
pub struct ClientKeyListRequest {
    pub cursor_json: Option<Vec<u8>>,
    pub page_size: u16,
    pub search: Option<String>,
    pub sort: ClientKeySort,
}

/// The query the key service runs.
#[derive(Debug, Clone, PartialEq, Eq)]
pub struct ClientKeyListQuery {
    pub cursor: Option<ClientKeyCursor>,
    pub page_size: u16,
    pub search: Option<String>,
    pub sort: ClientKeySort,
}

/// Search text is trimmed, then at most 256 bytes without control characters.
pub open spec fn search_ok(s: Seq<char>) -> bool {
    byte_len(trim_seq(s)) <= MAX_SEARCH_BYTES && !has_control(trim_seq(s))
}

pub open spec fn opt_text(s: Option<String>) -> Option<Seq<char>> {
    match s {
        Some(v) => Some(v@),
        None => None,
    }
}

pub open spec fn text_or(s: Option<String>, default: Seq<char>) -> Seq<char> {
    match s {
        Some(v) => v@,
        None => default,
    }
}

/// The wire field a list query is refused for, in the order the checks run:
/// the cursor's size, a zero limit, the search text, the sort field and
/// direction (`createdAt` and `desc` unless given), then the cursor's base64.
pub open spec fn list_query_error(q: ListClientKeysQuery) -> Option<Seq<char>> {
    let sort_by = text_or(q.sort_by, "createdAt"@);
    let sort_direction = text_or(q.sort_direction, "desc"@);
    if q.cursor matches Some(c) && !cursor_text_ok(c@) {
        Some("cursor"@)
    } else if q.limit == Some(0u16) {
        Some("limit"@)
    } else if q.search matches Some(s) && !search_ok(s@) {
        Some("search"@)
    } else if sort_field_of(sort_by) is None {
        Some("sortBy"@)
    } else if sort_direction_of(sort_direction) is None {
        Some("sortDirection"@)
    } else if q.cursor matches Some(c) && !(exists|b: Seq<u8>| #[trigger] base64_url(b) == c@) {
        Some("cursor"@)
    } else {
        None
    }
}

impl ListClientKeysQuery {
    /// Checks the wire query. A blank search is dropped; the page size is 50
    /// unless given; the cursor text is decoded to the serialized cursor.
    pub fn into_command(self) -> (r: Result<ClientKeyListRequest, WireValidationError>)
        ensures
            match list_query_error(self) {
                Some(f) => r matches Err(e) && e.field@ == f,
                None => r is Ok,
            },
            r matches Ok(q) ==> {
                &&& q.page_size == match self.limit {
                    Some(l) => l,
                    None => DEFAULT_PAGE_SIZE,
                }
                &&& opt_text(q.search) == match self.search {
                    Some(s) => if trim_seq(s@).len() > 0 {
                        Some(trim_seq(s@))
                    } else {
                        None
                    },
                    None => None,
                }
                &&& sort_field_of(text_or(self.sort_by, "createdAt"@)) == Some(q.sort.field)
                &&& sort_direction_of(text_or(self.sort_direction, "desc"@)) == Some(
                    q.sort.direction,
                )
                &&& match self.cursor {
                    Some(c) => q.cursor_json matches Some(b) && base64_url(b@) == c@,
                    None => q.cursor_json is None,
                }
            },
    {
        proof {
            reveal_strlit("createdAt");
            reveal_strlit("desc");
        }
        if let Some(c) = &self.cursor {
            if c.as_str().is_empty() || str_byte_len(c.as_str()) > MAX_CURSOR_BYTES {
                return Err(WireValidationError::new("cursor"));
            }
        }
        if self.limit == Some(0u16) {
            return Err(WireValidationError::new("limit"));
        }
        let search = match &self.search {
            Some(s) => Some(trim(s.as_str())),
            None => None,
        };
        if let Some(s) = &search {
            if str_byte_len(s.as_str()) > MAX_SEARCH_BYTES || contains_control(s.as_str()) {
                return Err(WireValidationError::new("search"));
            }
        }
        let sort = ClientKeySort::parse(
            match &self.sort_by {
                Some(s) => s.as_str(),
                None => "createdAt",
            },
            match &self.sort_direction {
                Some(s) => s.as_str(),
                None => "desc",
            },
        )?;
        let cursor_json = match &self.cursor {
            Some(c) => match base64_url_decode(c.as_str()) {
                Some(b) => Some(b),
                None => {
                    return Err(WireValidationError::new("cursor"));
                },
            },
            None => None,
        };
        let search = match search {
            Some(s) => if s.as_str().is_empty() {
                None
            } else {
                Some(s)
            },
            None => None,
        };
        Ok(
            ClientKeyListRequest {
                cursor_json,
                page_size: match self.limit {
                    Some(l) => l,
                    None => DEFAULT_PAGE_SIZE,
                },
                search,
                sort,
            },
        )
    }
}

impl ClientKeyListRequest {
    /// Completes the query with the cursor its serialized cursor was read as;
    /// the cursor is checked (`cursor`). No cursor is read when none was sent.
    pub fn with_cursor(self, cursor: Option<ClientKeyCursorData>) -> (r: Result<
        ClientKeyListQuery,
        WireValidationError,
    >)
        ensures
            match cursor {
                Some(c) => r is Ok <==> cursor_ok(c) && identifier_error(c.id@) is None,
                None => r is Ok,
            },
            r matches Ok(q) ==> q.page_size == self.page_size && q.search == self.search && q.sort
                == self.sort && match cursor {
                Some(c) => q.cursor matches Some(d) && d.sort == c.sort && d.value == c.value
                    && d.id@ == c.id@,
                None => q.cursor is None,
            },
            r matches Err(e) ==> e.field == "cursor",
    {
        let cursor = match cursor {
            Some(c) => Some(c.into_domain()?),
            None => None,
        };
        Ok(
            ClientKeyListQuery {
                cursor,
                page_size: self.page_size,
                search: self.search,
                sort: self.sort,
            },
        )
    }
}

/// The key service accepts a cursor only for the sort order of the query and
/// with a value of the kind that order names.
pub open spec fn list_cursor_ok(query: ClientKeyListQuery) -> bool {
    query.cursor matches Some(c) ==> c.sort == query.sort && cursor_value_matches(
        c.sort.field,
        c.value,
    )
}

/// A list query's cursor must carry the query's sort order (`Invalid`).
pub fn validate_cursor(query: &ClientKeyListQuery) -> (r: Result<(), AdminError>)
    ensures
        r is Ok <==> list_cursor_ok(*query),
        r matches Err(e) ==> e.kind == AdminErrorKind::Invalid && e.message == if query.cursor matches Some(
            c,
        ) && c.sort != query.sort {
            "Client API Key 游标排序与查询条件不一致"
        } else {
            "Client API Key 游标不合法"
        },
{
    let cursor = match &query.cursor {
        Some(c) => c,
        None => {
            return Ok(());
        },
    };
    if cursor.sort != query.sort {
        return Err(AdminError::invalid("Client API Key 游标排序与查询条件不一致"));
    }
    if value_matches_field(cursor.sort.field, &cursor.value) {
        Ok(())
    } else {
        Err(AdminError::invalid("Client API Key 游标不合法"))
    }
}

/// Which spent amounts of a key a budget reset clears.
#[derive(Debug, Clone, Copy, PartialEq, Eq, Structural)]
pub enum ClientKeyBudgetPeriod {
    Daily,
    Weekly,
    All,
}

#[derive(Debug, Clone, PartialEq, Eq)]
pub struct ResetClientKeyBudgetRequest {
    pub id: String,
    pub period: ClientKeyBudgetPeriod,
}

#[derive(Debug, Clone, PartialEq, Eq)]
pub struct ResetClientKeyBudget {
    pub id: ClientApiKeyId,
    pub period: ClientKeyBudgetPeriod,
}

impl ResetClientKeyBudgetRequest {
    /// A blank id is refused as `id`; an id that is not a key identifier, as
    /// `clientKeyMutationNotFound`.
    pub fn into_command(self) -> (r: Result<ResetClientKeyBudget, WireValidationError>)
        ensures
            trim_seq(self.id@).len() == 0 ==> r == Err::<ResetClientKeyBudget, WireValidationError>(
                WireValidationError { field: "id" },
            ),
            trim_seq(self.id@).len() > 0 && identifier_error(self.id@) is Some ==> r == Err::<
                ResetClientKeyBudget,
                WireValidationError,
            >(WireValidationError { field: "clientKeyMutationNotFound" }),
            trim_seq(self.id@).len() > 0 && identifier_error(self.id@) is None ==> (r matches Ok(c)
                && c.id@ == self.id@ && c.period == self.period),
    {
        if is_blank(self.id.as_str()) {
            return Err(WireValidationError::new("id"));
        }
        let id = client_key_id(self.id.as_str(), "clientKeyMutationNotFound")?;
        Ok(ResetClientKeyBudget { id, period: self.period })
    }
}

fn client_key_id(value: &str, field: &'static str) -> (r: Result<ClientApiKeyId, WireValidationError>)
    ensures
        identifier_error(value@) is None ==> (r matches Ok(id) && id@ == value@),
        identifier_error(value@) is Some ==> r == Err::<ClientApiKeyId, WireValidationError>(
            WireValidationError { field },
        ),
{
    match ClientApiKeyId::new(value) {
        Ok(id) => Ok(id),
        Err(_) => Err(WireValidationError::new(field)),
    }
}

/// The wire field a key's name and label are refused for: a blank name or one
/// with a control character (`name`), a blank label or one with a control
/// character (`label`).
pub open spec fn key_text_error(name: Seq<char>, label: Option<Seq<char>>) -> Option<Seq<char>> {
    if trim_seq(name).len() == 0 || has_control(name) {
        Some("name"@)
    } else if label matches Some(l) && (trim_seq(l).len() == 0 || has_control(l)) {
        Some("label"@)
    } else {
        None
    }
}

/// Checks a key's name and label; the error names the first bad field.
pub fn validate_key_text(name: &str, label: Option<&str>) -> (r: Result<(), WireValidationError>)
    ensures
        match key_text_error(
            name@,
            match label {
                Some(l) => Some(l@),
                None => None,
            },
        ) {
            Some(f) => r matches Err(e) && e.field@ == f,
            None => r is Ok,
        },
{
    if is_blank(name) || contains_control(name) {
        return Err(WireValidationError::new("name"));
    }
    if let Some(l) = label {
        if is_blank(l) || contains_control(l) {
            return Err(WireValidationError::new("label"));
        }
    }
    Ok(())
}

/// Key limits as stored: each must fit a signed 64-bit column.
pub fn key_rate_limits(max_concurrency: u64, requests_per_minute: u64) -> (r: Result<
    RateLimits,
    WireValidationError,
>)
    ensures
        max_concurrency > i64::MAX ==> r == Err::<RateLimits, WireValidationError>(
            WireValidationError { field: "maxConcurrency" },
        ),
        max_concurrency <= i64::MAX && requests_per_minute > i64::MAX ==> r == Err::<
            RateLimits,
            WireValidationError,
        >(WireValidationError { field: "requestsPerMinute" }),
        max_concurrency <= i64::MAX && requests_per_minute <= i64::MAX ==> r == Ok::<
            RateLimits,
            WireValidationError,
        >(RateLimits { max_concurrency, requests_per_minute }),
{
    if max_concurrency > i64::MAX as u64 {
        return Err(WireValidationError::new("maxConcurrency"));
    }
    if requests_per_minute > i64::MAX as u64 {
        return Err(WireValidationError::new("requestsPerMinute"));
    }
    Ok(RateLimits { max_concurrency, requests_per_minute })
}

/// An optional budget in decimal text; malformed text is refused as `field`.
pub fn parse_budget(value: Option<String>, field: &'static str) -> (r: Result<
    Option<Decimal>,
    WireValidationError,
>)
    ensures
        match value {
            None => r == Ok::<Option<Decimal>, WireValidationError>(None),
            Some(v) => match parse_decimal_text(v@) {
                Some(x) => r matches Ok(Some(d)) && d@ == x,
                None => r == Err::<Option<Decimal>, WireValidationError>(
                    WireValidationError { field },
                ),
            },
        },
{
    match value {
        None => Ok(None),
        Some(v) => match Decimal::parse(v.as_str()) {
            Ok(d) => Ok(Some(d)),
            Err(_) => Err(WireValidationError::new(field)),
        },
    }
}

/// A user's request to create a key.
#[derive(Clone, PartialEq, Eq)]
pub struct CreateClientKeyRequest {
    pub name: String,
    pub label: Option<String>,
    pub custom_key: Option<String>,
    pub max_concurrency: u64,
    pub requests_per_minute: u64,
    pub daily_limit_usd: Option<String>,
    pub weekly_limit_usd: Option<String>,
}

/// A key creation command. Provider identity overrides are carried as their
/// stored text.
#[derive(Clone, PartialEq, Eq)]
pub struct CreateClientKey {
    pub name: String,
    pub label: Option<String>,
    pub custom_key: Option<PlaintextClientApiKey>,
    pub group_ids: Vec<String>,
    pub openai_client_profile_override: Option<String>,
    pub xai_client_profile_override: Option<String>,
    pub limits: RateLimits,
    pub budget: ClientBudgetLimits,
}

pub open spec fn opt_amount_ok(v: Option<String>) -> bool {
    v matches Some(s) ==> parse_decimal_text(s@) is Some
}

/// The wire field a key creation request is refused for, in the order the
/// checks run: name and label, a non-empty custom key that is not visible
/// ASCII, the limits, then the daily and the weekly budget.
pub open spec fn create_key_error(q: CreateClientKeyRequest) -> Option<Seq<char>> {
    if key_text_error(q.name@, opt_text(q.label)) is Some {
        key_text_error(q.name@, opt_text(q.label))
    } else if q.custom_key matches Some(k) && k@.len() > 0 && plaintext_key_error(k@) is Some {
        Some("customKey"@)
    } else if q.max_concurrency > i64::MAX {
        Some("maxConcurrency"@)
    } else if q.requests_per_minute > i64::MAX {
        Some("requestsPerMinute"@)
    } else if !opt_amount_ok(q.daily_limit_usd) {
        Some("dailyLimitUsd"@)
    } else if !opt_amount_ok(q.weekly_limit_usd) {
        Some("weeklyLimitUsd"@)
    } else {
        None
    }
}

/// The amount an optional budget text gives, zero (no extra limit) when absent.
pub open spec fn amount_or_zero(v: Option<String>) -> nat {
    match v {
        Some(s) => match parse_decimal_text(s@) {
            Some(x) => x,
            None => 0,
        },
        None => 0,
    }
}

impl CreateClientKeyRequest {
    /// A user key has no account groups and no provider identity overrides; an
    /// empty custom key means a generated one; absent budgets are zero.
    pub fn into_command(self) -> (r: Result<CreateClientKey, WireValidationError>)
        ensures
            match create_key_error(self) {
                Some(f) => r matches Err(e) && e.field@ == f,
                None => r is Ok,
            },
            r matches Ok(c) ==> {
                &&& c.name == self.name
                &&& c.label == self.label
                &&& match self.custom_key {
                    Some(k) => if k@.len() > 0 {
                        c.custom_key matches Some(p) && p@ == k@.map_values(|ch: char| ch as u8)
                    } else {
                        c.custom_key is None
                    },
                    None => c.custom_key is None,
                }
                &&& c.group_ids@.len() == 0
                &&& c.openai_client_profile_override is None
                &&& c.xai_client_profile_override is None
                &&& c.limits == (RateLimits {
                    max_concurrency: self.max_concurrency,
                    requests_per_minute: self.requests_per_minute,
                })
                &&& c.budget.daily_usd@ == amount_or_zero(self.daily_limit_usd)
                &&& c.budget.weekly_usd@ == amount_or_zero(self.weekly_limit_usd)
            },
    {
        validate_key_text(
            self.name.as_str(),
            match &self.label {
                Some(l) => Some(l.as_str()),
                None => None,
            },
        )?;
        let custom_key = match &self.custom_key {
            Some(k) => if k.as_str().is_empty() {
                None
            } else {
                match PlaintextClientApiKey::new(k.as_str()) {
                    Ok(p) => Some(p),
                    Err(_) => {
                        return Err(WireValidationError::new("customKey"));
                    },
                }
            },
            None => None,
        };
        let limits = key_rate_limits(self.max_concurrency, self.requests_per_minute)?;
        let daily = parse_budget(self.daily_limit_usd, "dailyLimitUsd")?;
        let weekly = parse_budget(self.weekly_limit_usd, "weeklyLimitUsd")?;
        Ok(
            CreateClientKey {
                name: self.name,
                label: self.label,
                custom_key,
                group_ids: Vec::new(),
                openai_client_profile_override: None,
                xai_client_profile_override: None,
                limits,
                budget: ClientBudgetLimits {
                    daily_usd: match daily {
                        Some(d) => d,
                        None => Decimal::zero(),
                    },
                    weekly_usd: match weekly {
                        Some(d) => d,
                        None => Decimal::zero(),
                    },
                },
            },
        )
    }
}

/// A user's request to edit a key; omitted budgets keep their values, an
/// explicit zero means no extra limit.
#[derive(Debug, Clone, PartialEq, Eq)]
pub struct UpdateClientKeyRequest {
    pub id: String,
    pub name: String,
    pub label: Option<String>,
    pub max_concurrency: u64,
    pub requests_per_minute: u64,
    pub daily_limit_usd: Option<String>,
    pub weekly_limit_usd: Option<String>,
}

#[derive(Debug, Clone, PartialEq, Eq)]
pub struct UpdateClientKey {
    pub id: ClientApiKeyId,
    pub name: String,
    pub label: Option<String>,
    pub group_ids: Vec<String>,
    pub openai_client_profile_override: Option<String>,
    pub xai_client_profile_override: Option<String>,
    pub limits: RateLimits,
    pub daily_limit_usd: Option<Decimal>,
    pub weekly_limit_usd: Option<Decimal>,
}

/// The wire field a key edit is refused for, in the order the checks run.
pub open spec fn update_key_error(q: UpdateClientKeyRequest) -> Option<Seq<char>> {
    if key_text_error(q.name@, opt_text(q.label)) is Some {
        key_text_error(q.name@, opt_text(q.label))
    } else if identifier_error(q.id@) is Some {
        Some("clientKeyMutationNotFound"@)
    } else if q.max_concurrency > i64::MAX {
        Some("maxConcurrency"@)
    } else if q.requests_per_minute > i64::MAX {
        Some("requestsPerMinute"@)
    } else if !opt_amount_ok(q.daily_limit_usd) {
        Some("dailyLimitUsd"@)
    } else if !opt_amount_ok(q.weekly_limit_usd) {
        Some("weeklyLimitUsd"@)
    } else {
        None
    }
}

pub open spec fn amount_of(v: Option<String>) -> Option<nat> {
    match v {
        Some(s) => parse_decimal_text(s@),
        None => None,
    }
}

pub open spec fn decimal_view(v: Option<Decimal>) -> Option<nat> {
    match v {
        Some(d) => Some(d@),
        None => None,
    }
}

impl UpdateClientKeyRequest {
    /// The checked command of a key edit; the error names the first bad field.
    pub fn into_command(self) -> (r: Result<UpdateClientKey, WireValidationError>)
        ensures
            match update_key_error(self) {
                Some(f) => r matches Err(e) && e.field@ == f,
                None => r is Ok,
            },
            r matches Ok(c) ==> {
                &&& c.id@ == self.id@
                &&& c.name == self.name
                &&& c.label == self.label
                &&& c.group_ids@.len() == 0
                &&& c.openai_client_profile_override is None
                &&& c.xai_client_profile_override is None
                &&& c.limits == (RateLimits {
                    max_concurrency: self.max_concurrency,
                    requests_per_minute: self.requests_per_minute,
                })
                &&& decimal_view(c.daily_limit_usd) == amount_of(self.daily_limit_usd)
                &&& decimal_view(c.weekly_limit_usd) == amount_of(self.weekly_limit_usd)
            },
    {
        validate_key_text(
            self.name.as_str(),
            match &self.label {
                Some(l) => Some(l.as_str()),
                None => None,
            },
        )?;
        let id = client_key_id(self.id.as_str(), "clientKeyMutationNotFound")?;
        let limits = key_rate_limits(self.max_concurrency, self.requests_per_minute)?;
        let daily = parse_budget(self.daily_limit_usd, "dailyLimitUsd")?;
        let weekly = parse_budget(self.weekly_limit_usd, "weeklyLimitUsd")?;
        Ok(
            UpdateClientKey {
                id,
                name: self.name,
                label: self.label,
                group_ids: Vec::new(),
                openai_client_profile_override: None,
                xai_client_profile_override: None,
                limits,
                daily_limit_usd: daily,
                weekly_limit_usd: weekly,
            },
        )
    }
}

/// A request naming one of the user's keys.
#[derive(Debug, Clone, PartialEq, Eq)]
pub struct ClientKeyMutationRequest {
    pub id: String,
}

impl ClientKeyMutationRequest {
    /// The id of a key mutation; an unusable id is reported as a missing key.
    pub fn into_id(self) -> (r: Result<String, WireValidationError>)
        ensures
            identifier_error(self.id@) is None ==> (r matches Ok(id) && id@ == self.id@),
            identifier_error(self.id@) is Some ==> r == Err::<String, WireValidationError>(
                WireValidationError { field: "clientKeyMutationNotFound" },
            ),
    {
        let id = client_key_id(self.id.as_str(), "clientKeyMutationNotFound")?;
        Ok(id.as_str().to_owned())
    }
}

/// User keys carry no account groups and no provider identity overrides; those
/// belong to administrators (`Invalid`).
pub fn check_user_key_scope(
    group_ids: &Vec<String>,
    openai_override: &Option<String>,
    xai_override: &Option<String>,
) -> (r: Result<(), AdminError>)
    ensures
        r is Ok <==> group_ids@.len() == 0 && openai_override is None && xai_override is None,
        r matches Err(e) ==> e.kind == AdminErrorKind::Invalid && e.message == "普通用户 API Key 不接受账号分组配置",
{
    if group_ids.len() != 0 || openai_override.is_some() || xai_override.is_some() {
        return Err(AdminError::invalid("普通用户 API Key 不接受账号分组配置"));
    }
    Ok(())
}

/// A fresh key identifier, `key_` and a time-ordered UUID; such an identifier
/// is always a valid key identifier. `Internal` when the clock or the system
/// generator fails.
pub fn new_client_key_id() -> (r: Result<ClientApiKeyId, AdminError>)
    ensures
        r matches Ok(id) ==> exists|m: u64, b: Seq<u8>| b.len() == 10 && id@ == "key_"@ + uuid_v7_text(m, b),
        r matches Ok(id) ==> generated_id("key_"@, id@),
        r matches Err(e) ==> e.kind == AdminErrorKind::Internal && e.message == ID_FAILURE,
{
    let text = match new_prefixed_id("key_") {
        Some(t) => t,
        None => {
            return Err(AdminError::internal(ID_FAILURE));
        },
    };
    proof {
        reveal_strlit("key_");
        lemma_generated_id_valid("key_"@, text@);
    }
    match ClientApiKeyId::new(text.as_str()) {
        Ok(id) => Ok(id),
        Err(_) => Err(AdminError::internal("创建 Client API Key ID 失败")),
    }
}

/// A generated identifier is a valid identifier when its prefix is short
/// visible ASCII.
pub proof fn lemma_generated_id_valid(prefix: Seq<char>, id: Seq<char>)
    requires
        generated_id(prefix, id),
        0 < prefix.len() <= 16,
        forall|i: int| 0 <= i < prefix.len() ==> '!' <= #[trigger] prefix[i] && prefix[i] <= '~',
    ensures
        identifier_error(id) is None,
{
    assert forall|i: int| 0 <= i < id.len() implies '!' <= #[trigger] id[i] && id[i] <= '~' by {
        if i < prefix.len() {
            assert(id[i] == id.take(prefix.len() as int)[i]);
        } else {
            assert(crate::crypto::is_lower_hex_char(id[i]));
        }
    }
    crate::text::lemma_ascii_text(id);
}

/// The plaintext of a generated key made from 32 bytes: `sk_` and their
/// URL-safe base64.
pub fn key_plaintext_from(bytes: &[u8]) -> (r: String)
    requires
        bytes@.len() == 32,
    ensures
        r@ == "sk_"@ + base64_url(bytes@),
        r@.len() == 46,
{
    let encoded = base64_url_encode(bytes);
    let mut key = String::new();
    push_text(&mut key, "sk_");
    proof {
        reveal_strlit("sk_");
    }
    push_text(&mut key, encoded.as_str());
    key
}

/// The plaintext of a new key: the custom key when one was given, else `sk_`
/// and the URL-safe base64 of 32 bytes from the operating system's generator
/// (`Internal` when the generator fails).
pub fn new_key_plaintext(custom: Option<&PlaintextClientApiKey>) -> (r: Result<String, AdminError>)
    ensures
        match custom {
            Some(k) => r matches Ok(t) && t@ == k@.map_values(|b: u8| b as char),
            None => r matches Ok(t) ==> (exists|b: Seq<u8>| b.len() == 32 && t@ == "sk_"@ + base64_url(b))
                && t@.len() == 46 && t@.take(3) == "sk_"@,
        },
        r matches Err(e) ==> e.kind == AdminErrorKind::Internal && e.message == "创建 Client API Key 失败",
{
    match custom {
        Some(k) => Ok(k.expose_text()),
        None => {
            let bytes = match random_bytes_32() {
                Some(b) => b,
                None => {
                    return Err(AdminError::internal("创建 Client API Key 失败"));
                },
            };
            let key = key_plaintext_from(bytes.as_slice());
            proof {
                reveal_strlit("sk_");
                assert(key@.take(3) =~= "sk_"@);
            }
            Ok(key)
        },
    }
}

/// The one response that carries a newly created key in full. It has no
/// `Debug` form, so the key cannot reach a log.
pub struct CreatedClientKeyData {
    id: String,
    prefix: String,
    plaintext_key: String,
}

impl CreatedClientKeyData {
    pub fn new(id: String, prefix: String, plaintext_key: String) -> (r: CreatedClientKeyData)
        ensures
            r.spec_id() == id@,
            r.spec_prefix() == prefix@,
            r.spec_plaintext_key() == plaintext_key@,
    {
        CreatedClientKeyData { id, prefix, plaintext_key }
    }

    pub closed spec fn spec_id(&self) -> Seq<char> {
        self.id@
    }

    pub closed spec fn spec_prefix(&self) -> Seq<char> {
        self.prefix@
    }

    pub closed spec fn spec_plaintext_key(&self) -> Seq<char> {
        self.plaintext_key@
    }

    pub fn id(&self) -> (r: &str)
        ensures
            r@ == self.spec_id(),
    {
        self.id.as_str()
    }

    pub fn prefix(&self) -> (r: &str)
        ensures
            r@ == self.spec_prefix(),
    {
        self.prefix.as_str()
    }

    pub fn plaintext_key(&self) -> (r: &str)
        ensures
            r@ == self.spec_plaintext_key(),
    {
        self.plaintext_key.as_str()
    }
}

/// The response of an explicit reveal: a key in full. It has no `Debug` form.
pub struct RevealedClientKeyData {
    id: String,
    plaintext_key: String,
}

impl RevealedClientKeyData {
    pub fn new(id: String, plaintext_key: String) -> (r: RevealedClientKeyData)
        ensures
            r.spec_id() == id@,
            r.spec_plaintext_key() == plaintext_key@,
    {
        RevealedClientKeyData { id, plaintext_key }
    }

    pub closed spec fn spec_id(&self) -> Seq<char> {
        self.id@
    }

    pub closed spec fn spec_plaintext_key(&self) -> Seq<char> {
        self.plaintext_key@
    }

    pub fn id(&self) -> (r: &str)
        ensures
            r@ == self.spec_id(),
    {
        self.id.as_str()
    }

    pub fn plaintext_key(&self) -> (r: &str)
        ensures
            r@ == self.spec_plaintext_key(),
    {
        self.plaintext_key.as_str()
    }
}

/// The response of a key mutation: the key's identifier.
#[derive(Debug, Clone, PartialEq, Eq)]
pub struct MutatedClientKeyData {
    pub id: String,
}

impl MutatedClientKeyData {
    pub fn new(id: String) -> (r: MutatedClientKeyData)
        ensures
            r.id == id,
    {
        MutatedClientKeyData { id }
    }
}

} // verus!
