//! The filter of usage record queries, written as the pieces of a SQL `where`
//! clause: literal SQL text and bound values, in order. Values are never
//! written into the SQL text; a search is a literal prefix, with `LIKE`
//! wildcards escaped.

use vstd::prelude::*;
use vstd::utf8::encode_utf8;

use crate::error::WireValidationError;
use crate::text::{chars_of, contains_control, has_control, push_char, push_text, trim, trim_seq};
use crate::users::non_blank;

verus! {

/// A value bound to a query parameter.
#[derive(Debug, Clone, PartialEq, Eq)]
pub enum SqlBind {
    Text(String),
    Int(i32),
    Bytes(Vec<u8>),
    /// An instant, in microseconds since the epoch.
    Timestamp(i64),
    BigInt(i64),
}

/// A piece of a query: SQL text, or a bound value.
#[derive(Debug, Clone, PartialEq, Eq)]
pub enum SqlPiece {
    Sql(String),
    Bind(SqlBind),
}

/// A piece as a mathematical value.
pub enum PieceView {
    Sql(Seq<char>),
    Text(Seq<char>),
    Int(i32),
    Bytes(Seq<u8>),
    Timestamp(i64),
    BigInt(i64),
}

pub open spec fn piece_view(p: SqlPiece) -> PieceView {
    match p {
        SqlPiece::Sql(s) => PieceView::Sql(s@),
        SqlPiece::Bind(SqlBind::Text(s)) => PieceView::Text(s@),
        SqlPiece::Bind(SqlBind::Int(v)) => PieceView::Int(v),
        SqlPiece::Bind(SqlBind::Bytes(b)) => PieceView::Bytes(b@),
        SqlPiece::Bind(SqlBind::Timestamp(t)) => PieceView::Timestamp(t),
        SqlPiece::Bind(SqlBind::BigInt(v)) => PieceView::BigInt(v),
    }
}

pub open spec fn pieces_view(v: Seq<SqlPiece>) -> Seq<PieceView> {
    v.map_values(|p: SqlPiece| piece_view(p))
}

/// The filter of a usage query; each present field narrows the records.
#[derive(Debug, Clone, PartialEq, Eq, Default)]
pub struct UsageRecordFilter {
    pub user_id: Option<String>,
    pub client_api_key_ref: Option<String>,
    pub request_id: Option<String>,
    pub provider_account_ref: Option<String>,
    pub operation: Option<String>,
    pub provider_kind: Option<String>,
    pub model: Option<String>,
    pub outcome: Option<String>,
    pub status_code: Option<u16>,
    pub transport: Option<String>,
    pub attempt_index: Option<u32>,
    pub response_id: Option<String>,
    pub upstream_request_id: Option<String>,
    pub search: Option<String>,
}

/// A character as it stands in a `LIKE` pattern matched literally: the escape
/// character and the two wildcards get a backslash before them.
pub open spec fn like_escaped_char(c: char) -> Seq<char> {
    if c == '\\' || c == '%' || c == '_' {
        seq!['\\', c]
    } else {
        seq![c]
    }
}

/// A text as it stands in a `LIKE` pattern matched literally.
pub open spec fn like_escaped(s: Seq<char>) -> Seq<char>
    decreases s.len(),
{
    if s.len() == 0 {
        Seq::<char>::empty()
    } else {
        like_escaped_char(s[0]) + like_escaped(s.skip(1))
    }
}

/// The text a literal `LIKE` pattern body stands for: a backslash takes the
/// next character as it is.
pub open spec fn like_unescaped(p: Seq<char>) -> Seq<char>
    decreases p.len(),
{
    if p.len() == 0 {
        Seq::<char>::empty()
    } else if p[0] == '\\' && p.len() >= 2 {
        seq![p[1]] + like_unescaped(p.skip(2))
    } else {
        seq![p[0]] + like_unescaped(p.skip(1))
    }
}

/// Escaping loses nothing: the escaped text stands for the text itself, so a
/// search matches exactly the records that begin with the searched text.
pub proof fn lemma_like_escape_round_trip(s: Seq<char>)
    ensures
        like_unescaped(like_escaped(s)) == s,
    decreases s.len(),
{
    if s.len() > 0 {
        lemma_like_escape_round_trip(s.skip(1));
        let c = s[0];
        let rest = like_escaped(s.skip(1));
        let p = like_escaped_char(c) + rest;
        assert(like_escaped(s) == p);
        if c == '\\' || c == '%' || c == '_' {
            assert(p[0] == '\\' && p[1] == c);
            assert(p.skip(2) == rest);
        } else {
            assert(p[0] == c);
            assert(p.skip(1) == rest);
        }
        assert(seq![c] + s.skip(1) == s);
    }
}

/// The pattern of a literal prefix search: the escaped text, then `%`.
pub open spec fn prefix_pattern(s: Seq<char>) -> Seq<char> {
    like_escaped(s).push('%')
}

proof fn lemma_like_escaped_push(s: Seq<char>, c: char)
    ensures
        like_escaped(s.push(c)) == like_escaped(s) + like_escaped_char(c),
    decreases s.len(),
{
    if s.len() == 0 {
        assert(s.push(c).skip(1) == Seq::<char>::empty());
        assert(like_escaped(s.push(c)) == like_escaped_char(c) + like_escaped(
            Seq::<char>::empty(),
        ));
    } else {
        lemma_like_escaped_push(s.skip(1), c);
        assert(s.push(c).skip(1) == s.skip(1).push(c));
        assert(s.push(c)[0] == s[0]);
    }
}

/// The LIKE pattern matching texts that start with `value`, its wildcards escaped.
pub fn literal_prefix_pattern(value: &str) -> (r: String)
    ensures
        r@ == prefix_pattern(value@),
{
    let chars = chars_of(value);
    let mut out = String::new();
    let mut i: usize = 0;
    while i < chars.len()
        invariant
            i <= chars.len(),
            chars@ == value@,
            out@ == like_escaped(chars@.take(i as int)),
        decreases chars.len() - i,
    {
        let c = chars[i];
        if c == '\\' || c == '%' || c == '_' {
            push_char(&mut out, '\\');
        }
        push_char(&mut out, c);
        proof {
            lemma_like_escaped_push(chars@.take(i as int), c);
            assert(chars@.take(i + 1) == chars@.take(i as int).push(c));
        }
        i = i + 1;
    }
    assert(chars@.take(chars.len() as int) == chars@);
    push_char(&mut out, '%');
    out
}

/// `and <alias>.<column> = ?`
pub open spec fn eq_clause(alias: Seq<char>, column: Seq<char>, value: Seq<char>) -> Seq<PieceView> {
    seq![PieceView::Sql(" and "@ + alias + "."@ + column + " = "@), PieceView::Text(value)]
}

/// `and (<alias>.<a> = ? or <alias>.<b> = ?)` with one value bound twice.
pub open spec fn either_clause(alias: Seq<char>, a: Seq<char>, b: Seq<char>, value: PieceView) -> Seq<
    PieceView,
> {
    seq![
        PieceView::Sql(" and ("@ + alias + "."@ + a + " = "@),
        value,
        PieceView::Sql(" or "@ + alias + "."@ + b + " = "@),
        value,
        PieceView::Sql(")"@),
    ]
}

pub open spec fn opt_clause(present: bool, clause: Seq<PieceView>) -> Seq<PieceView> {
    if present {
        clause
    } else {
        Seq::<PieceView>::empty()
    }
}

pub open spec fn text_of(v: Option<String>) -> Seq<char> {
    match v {
        Some(s) => s@,
        None => Seq::<char>::empty(),
    }
}

/// The attempt index as bound: an `i32`, the largest one when it does not fit.
pub open spec fn attempt_bind(v: u32) -> i32 {
    if v <= i32::MAX {
        v as i32
    } else {
        i32::MAX
    }
}

pub open spec fn attempt_clause(alias: Seq<char>, v: u32) -> Seq<PieceView> {
    seq![
        PieceView::Sql(" and ("@ + alias + ".attempt_count = "@),
        PieceView::Int(attempt_bind(v)),
        PieceView::Sql(
            " or exists (select 1 from ops_events attempt_event\n                          where attempt_event.model_request_id = "@
                + alias
                + ".id\n                            and attempt_event.attempt_index = "@,
        ),
        PieceView::Int(attempt_bind(v)),
        PieceView::Sql("))"@),
    ]
}

/// The search over the record's own columns and the key's current name.
pub open spec fn search_columns() -> Seq<Seq<char>> {
    seq![
        "username_snapshot"@,
        "client_api_key_ref"@,
        "provider_account_ref"@,
        "provider_account_email_snapshot"@,
        "provider_account_name_snapshot"@,
        "requested_model_id"@,
        "upstream_model_id"@,
        "upstream_request_id"@,
    ]
}

pub open spec fn search_column_clauses(alias: Seq<char>, pattern: Seq<char>, columns: Seq<Seq<char>>) -> Seq<
    PieceView,
>
    decreases columns.len(),
{
    if columns.len() == 0 {
        Seq::<PieceView>::empty()
    } else {
        seq![
            PieceView::Sql(" escape '\\' or "@ + alias + "."@ + columns[0] + " like "@),
            PieceView::Text(pattern),
        ] + search_column_clauses(alias, pattern, columns.skip(1))
    }
}

/// `or exists` a key with that reference whose name matches the pattern.
pub open spec fn key_name_search(key_ref: Seq<char>, pattern: Seq<char>) -> Seq<PieceView> {
    seq![
        PieceView::Sql(
            " or exists (select 1 from client_api_keys searched_client_key\n         where searched_client_key.id = "@
                + key_ref + " and searched_client_key.name ilike "@,
        ),
        PieceView::Text(pattern),
        PieceView::Sql(" escape '\\')"@),
    ]
}

pub open spec fn search_clause(alias: Seq<char>, search: Seq<char>) -> Seq<PieceView> {
    let p = prefix_pattern(search);
    seq![PieceView::Sql(" and ("@ + alias + ".id like "@), PieceView::Text(p)]
        + search_column_clauses(alias, p, search_columns()) + seq![
        PieceView::Sql(" escape '\\'"@),
    ] + key_name_search(alias + ".client_api_key_ref"@, p) + seq![PieceView::Sql(")"@)]
}

/// The conditions on who and what made a request.
pub open spec fn filter_part_who(f: UsageRecordFilter, alias: Seq<char>) -> Seq<PieceView> {
    opt_clause(f.user_id is Some, eq_clause(alias, "user_id"@, text_of(f.user_id)))
        + opt_clause(
        f.client_api_key_ref is Some,
        eq_clause(alias, "client_api_key_ref"@, text_of(f.client_api_key_ref)),
    ) + opt_clause(f.request_id is Some, eq_clause(alias, "id"@, text_of(f.request_id)))
        + opt_clause(
        f.provider_account_ref is Some,
        eq_clause(alias, "provider_account_ref"@, text_of(f.provider_account_ref)),
    ) + opt_clause(f.operation is Some, eq_clause(alias, "operation"@, text_of(f.operation)))
}

/// The conditions on the upstream, the model and the outcome.
pub open spec fn filter_part_route(f: UsageRecordFilter, alias: Seq<char>) -> Seq<PieceView> {
    opt_clause(f.provider_kind is Some, eq_clause(alias, "provider_kind"@, text_of(f.provider_kind)))
        + opt_clause(
        f.model is Some,
        either_clause(
            alias,
            "requested_model_id"@,
            "upstream_model_id"@,
            PieceView::Text(text_of(f.model)),
        ),
    ) + opt_clause(f.outcome is Some, eq_clause(alias, "outcome"@, text_of(f.outcome)))
        + opt_clause(
        f.status_code is Some,
        either_clause(
            alias,
            "client_status_code"@,
            "upstream_status_code"@,
            PieceView::Int(f.status_code->0 as i32),
        ),
    ) + opt_clause(
        f.transport is Some,
        either_clause(
            alias,
            "client_transport"@,
            "upstream_transport"@,
            PieceView::Text(text_of(f.transport)),
        ),
    )
}

/// The conditions on attempts, response identifiers and the free search.
pub open spec fn filter_part_trace(f: UsageRecordFilter, alias: Seq<char>) -> Seq<PieceView> {
    opt_clause(f.attempt_index is Some, attempt_clause(alias, f.attempt_index->0))
        + opt_clause(
        f.response_id is Some,
        either_clause(
            alias,
            "client_response_id"@,
            "upstream_response_id"@,
            PieceView::Bytes(encode_utf8(text_of(f.response_id))),
        ),
    ) + opt_clause(
        f.upstream_request_id is Some,
        eq_clause(alias, "upstream_request_id"@, text_of(f.upstream_request_id)),
    ) + opt_clause(f.search is Some, search_clause(alias, text_of(f.search)))
}

/// The `where` conditions of a usage filter, one per present field, in a fixed order.
pub open spec fn usage_filter_spec(f: UsageRecordFilter, alias: Seq<char>) -> Seq<PieceView> {
    filter_part_who(f, alias) + filter_part_route(f, alias) + filter_part_trace(f, alias)
}

fn sql_text(a: &str, b: &str, c: &str, d: &str, e: &str) -> (r: String)
    ensures
        r@ == a@ + b@ + c@ + d@ + e@,
{
    let mut s = String::new();
    push_text(&mut s, a);
    push_text(&mut s, b);
    push_text(&mut s, c);
    push_text(&mut s, d);
    push_text(&mut s, e);
    assert(s@ == a@ + b@ + c@ + d@ + e@);
    s
}

pub(crate) fn push_piece(out: &mut Vec<SqlPiece>, piece: SqlPiece)
    ensures
        pieces_view(final(out)@) == pieces_view(old(out)@).push(piece_view(piece)),
{
    out.push(piece);
    assert(pieces_view(final(out)@) == pieces_view(old(out)@).push(piece_view(piece)));
}

fn push_eq_clause(out: &mut Vec<SqlPiece>, alias: &str, column: &str, value: &String)
    ensures
        pieces_view(final(out)@) == pieces_view(old(out)@) + eq_clause(alias@, column@, value@),
{
    push_piece(out, SqlPiece::Sql(sql_text(" and ", alias, ".", column, " = ")));
    push_piece(out, SqlPiece::Bind(SqlBind::Text(value.clone())));
    assert(pieces_view(out@) == pieces_view(old(out)@) + eq_clause(alias@, column@, value@));
}

fn push_either_clause(out: &mut Vec<SqlPiece>, alias: &str, a: &str, b: &str, value: SqlBind)
    ensures
        pieces_view(final(out)@) == pieces_view(old(out)@) + either_clause(
            alias@,
            a@,
            b@,
            piece_view(SqlPiece::Bind(value)),
        ),
{
    let second = match &value {
        SqlBind::Text(t) => SqlBind::Text(t.clone()),
        SqlBind::Int(v) => SqlBind::Int(*v),
        SqlBind::Bytes(bytes) => SqlBind::Bytes(copy_bytes(bytes)),
        SqlBind::Timestamp(t) => SqlBind::Timestamp(*t),
        SqlBind::BigInt(v) => SqlBind::BigInt(*v),
    };
    assert(piece_view(SqlPiece::Bind(second)) == piece_view(SqlPiece::Bind(value)));
    push_piece(out, SqlPiece::Sql(sql_text(" and (", alias, ".", a, " = ")));
    push_piece(out, SqlPiece::Bind(value));
    push_piece(out, SqlPiece::Sql(sql_text(" or ", alias, ".", b, " = ")));
    push_piece(out, SqlPiece::Bind(second));
    push_piece(out, SqlPiece::Sql(")".to_owned()));
    assert(pieces_view(out@) == pieces_view(old(out)@) + either_clause(
        alias@,
        a@,
        b@,
        piece_view(SqlPiece::Bind(value)),
    ));
}

fn copy_bytes(v: &Vec<u8>) -> (r: Vec<u8>)
    ensures
        r@ == v@,
{
    let mut out: Vec<u8> = Vec::new();
    let mut i: usize = 0;
    while i < v.len()
        invariant
            i <= v.len(),
            out@ == v@.take(i as int),
        decreases v.len() - i,
    {
        out.push(v[i]);
        assert(v@.take(i + 1) == v@.take(i as int).push(v@[i as int]));
        i = i + 1;
    }
    assert(v@.take(v@.len() as int) == v@);
    out
}

fn attempt_value(v: u32) -> (r: i32)
    ensures
        r == attempt_bind(v),
{
    if v <= i32::MAX as u32 {
        v as i32
    } else {
        i32::MAX
    }
}

fn push_attempt_clause(out: &mut Vec<SqlPiece>, alias: &str, v: u32)
    ensures
        pieces_view(final(out)@) == pieces_view(old(out)@) + attempt_clause(alias@, v),
{
    push_piece(out, SqlPiece::Sql(sql_text(" and (", alias, ".attempt_count = ", "", "")));
    proof {
        reveal_strlit("");
    }
    push_piece(out, SqlPiece::Bind(SqlBind::Int(attempt_value(v))));
    push_piece(
        out,
        SqlPiece::Sql(
            sql_text(
                " or exists (select 1 from ops_events attempt_event\n                          where attempt_event.model_request_id = ",
                alias,
                ".id\n                            and attempt_event.attempt_index = ",
                "",
                "",
            ),
        ),
    );
    push_piece(out, SqlPiece::Bind(SqlBind::Int(attempt_value(v))));
    push_piece(out, SqlPiece::Sql("))".to_owned()));
    assert(pieces_view(out@) == pieces_view(old(out)@) + attempt_clause(alias@, v));
}

proof fn lemma_search_columns_push(alias: Seq<char>, pattern: Seq<char>, columns: Seq<Seq<char>>, c: Seq<char>)
    ensures
        search_column_clauses(alias, pattern, columns.push(c)) == search_column_clauses(
            alias,
            pattern,
            columns,
        ) + seq![
            PieceView::Sql(" escape '\\' or "@ + alias + "."@ + c + " like "@),
            PieceView::Text(pattern),
        ],
    decreases columns.len(),
{
    if columns.len() == 0 {
        assert(columns.push(c).skip(1) == Seq::<Seq<char>>::empty());
        assert(search_column_clauses(alias, pattern, Seq::<Seq<char>>::empty()) == Seq::<
            PieceView,
        >::empty());
    } else {
        lemma_search_columns_push(alias, pattern, columns.skip(1), c);
        assert(columns.push(c).skip(1) == columns.skip(1).push(c));
        assert(columns.push(c)[0] == columns[0]);
    }
}

/// Appends the search over a key's current name.
pub fn push_client_key_name_search(out: &mut Vec<SqlPiece>, key_ref: &str, pattern: String)
    ensures
        pieces_view(final(out)@) == pieces_view(old(out)@) + key_name_search(key_ref@, pattern@),
{
    proof {
        reveal_strlit("");
    }
    push_piece(
        out,
        SqlPiece::Sql(
            sql_text(
                " or exists (select 1 from client_api_keys searched_client_key\n         where searched_client_key.id = ",
                key_ref,
                " and searched_client_key.name ilike ",
                "",
                "",
            ),
        ),
    );
    let ghost p = pattern@;
    push_piece(out, SqlPiece::Bind(SqlBind::Text(pattern)));
    push_piece(out, SqlPiece::Sql(" escape '\\')".to_owned()));
    assert(pieces_view(out@) == pieces_view(old(out)@) + key_name_search(key_ref@, p));
}

fn push_search_clause(out: &mut Vec<SqlPiece>, alias: &str, search: &str)
    ensures
        pieces_view(final(out)@) == pieces_view(old(out)@) + search_clause(alias@, search@),
{
    proof {
        reveal_strlit("");
    }
    let pattern = literal_prefix_pattern(search);
    let ghost p = pattern@;
    push_piece(out, SqlPiece::Sql(sql_text(" and (", alias, ".id like ", "", "")));
    push_piece(out, SqlPiece::Bind(SqlBind::Text(pattern.clone())));
    let ghost mid = pieces_view(out@);
    let columns: Vec<&str> = vec![
        "username_snapshot",
        "client_api_key_ref",
        "provider_account_ref",
        "provider_account_email_snapshot",
        "provider_account_name_snapshot",
        "requested_model_id",
        "upstream_model_id",
        "upstream_request_id",
    ];
    assert(columns@.map_values(|c: &str| c@) == search_columns());
    let mut i: usize = 0;
    while i < columns.len()
        invariant
            i <= columns.len(),
            columns@.map_values(|c: &str| c@) == search_columns(),
            pattern@ == p,
            pieces_view(out@) == mid + search_column_clauses(
                alias@,
                p,
                columns@.map_values(|c: &str| c@).take(i as int),
            ),
        decreases columns.len() - i,
    {
        let ghost before = pieces_view(out@);
        push_piece(out, SqlPiece::Sql(sql_text(" escape '\\' or ", alias, ".", columns[i], " like ")));
        push_piece(out, SqlPiece::Bind(SqlBind::Text(pattern.clone())));
        proof {
            let cs = columns@.map_values(|c: &str| c@);
            lemma_search_columns_push(alias@, p, cs.take(i as int), cs[i as int]);
            assert(cs.take(i + 1) == cs.take(i as int).push(cs[i as int]));
        }
        i = i + 1;
    }
    assert(columns@.map_values(|c: &str| c@).take(8) == search_columns());
    push_piece(out, SqlPiece::Sql(" escape '\\'".to_owned()));
    let key_ref = sql_text(alias, ".client_api_key_ref", "", "", "");
    push_client_key_name_search(out, key_ref.as_str(), pattern);
    push_piece(out, SqlPiece::Sql(")".to_owned()));
    assert(pieces_view(out@) == pieces_view(old(out)@) + search_clause(alias@, search@));
}

fn opt_eq_clause(out: &mut Vec<SqlPiece>, alias: &str, column: &str, value: &Option<String>)
    ensures
        pieces_view(final(out)@) == pieces_view(old(out)@) + opt_clause(
            value is Some,
            eq_clause(alias@, column@, text_of(*value)),
        ),
{
    match value {
        Some(v) => push_eq_clause(out, alias, column, v),
        None => {
            assert(pieces_view(out@) == pieces_view(old(out)@) + Seq::<PieceView>::empty());
        },
    }
}

fn push_part_who(out: &mut Vec<SqlPiece>, filter: &UsageRecordFilter, alias: &str)
    ensures
        pieces_view(final(out)@) == pieces_view(old(out)@) + filter_part_who(*filter, alias@),
{
    let ghost start = pieces_view(out@);
    opt_eq_clause(out, alias, "user_id", &filter.user_id);
    opt_eq_clause(out, alias, "client_api_key_ref", &filter.client_api_key_ref);
    opt_eq_clause(out, alias, "id", &filter.request_id);
    opt_eq_clause(out, alias, "provider_account_ref", &filter.provider_account_ref);
    opt_eq_clause(out, alias, "operation", &filter.operation);
    assert(pieces_view(out@) == start + filter_part_who(*filter, alias@));
}

fn push_part_route(out: &mut Vec<SqlPiece>, filter: &UsageRecordFilter, alias: &str)
    ensures
        pieces_view(final(out)@) == pieces_view(old(out)@) + filter_part_route(*filter, alias@),
{
    let ghost start = pieces_view(out@);
    let ghost f = *filter;
    let ghost a = alias@;
    opt_eq_clause(out, alias, "provider_kind", &filter.provider_kind);
    let ghost p1 = pieces_view(out@);
    if let Some(v) = &filter.model {
        push_either_clause(out, alias, "requested_model_id", "upstream_model_id", SqlBind::Text(v.clone()));
    }
    let ghost p2 = pieces_view(out@);
    assert(p2 == p1 + opt_clause(
        f.model is Some,
        either_clause(a, "requested_model_id"@, "upstream_model_id"@, PieceView::Text(text_of(f.model))),
    ));
    opt_eq_clause(out, alias, "outcome", &filter.outcome);
    let ghost p3 = pieces_view(out@);
    if let Some(v) = filter.status_code {
        push_either_clause(out, alias, "client_status_code", "upstream_status_code", SqlBind::Int(v as i32));
    }
    let ghost p4 = pieces_view(out@);
    assert(p4 == p3 + opt_clause(
        f.status_code is Some,
        either_clause(
            a,
            "client_status_code"@,
            "upstream_status_code"@,
            PieceView::Int(f.status_code->0 as i32),
        ),
    ));
    if let Some(v) = &filter.transport {
        push_either_clause(out, alias, "client_transport", "upstream_transport", SqlBind::Text(v.clone()));
    }
    assert(pieces_view(out@) == p4 + opt_clause(
        f.transport is Some,
        either_clause(a, "client_transport"@, "upstream_transport"@, PieceView::Text(text_of(f.transport))),
    ));
    assert(pieces_view(out@) == start + filter_part_route(*filter, alias@));
}

fn push_part_trace(out: &mut Vec<SqlPiece>, filter: &UsageRecordFilter, alias: &str)
    ensures
        pieces_view(final(out)@) == pieces_view(old(out)@) + filter_part_trace(*filter, alias@),
{
    let ghost start = pieces_view(out@);
    let ghost f = *filter;
    let ghost a = alias@;
    if let Some(v) = filter.attempt_index {
        push_attempt_clause(out, alias, v);
    }
    let ghost p1 = pieces_view(out@);
    assert(p1 == start + opt_clause(f.attempt_index is Some, attempt_clause(a, f.attempt_index->0)));
    if let Some(v) = &filter.response_id {
        push_either_clause(
            out,
            alias,
            "client_response_id",
            "upstream_response_id",
            SqlBind::Bytes(copy_slice(v.as_str().as_bytes())),
        );
    }
    let ghost p2 = pieces_view(out@);
    assert(p2 == p1 + opt_clause(
        f.response_id is Some,
        either_clause(
            a,
            "client_response_id"@,
            "upstream_response_id"@,
            PieceView::Bytes(encode_utf8(text_of(f.response_id))),
        ),
    ));
    opt_eq_clause(out, alias, "upstream_request_id", &filter.upstream_request_id);
    let ghost p3 = pieces_view(out@);
    if let Some(v) = &filter.search {
        push_search_clause(out, alias, v.as_str());
    }
    assert(pieces_view(out@) == p3 + opt_clause(f.search is Some, search_clause(a, text_of(f.search))));
    assert(pieces_view(out@) == start + filter_part_trace(*filter, alias@));
}

/// The `where` conditions of a usage filter over the records aliased `alias`.
pub fn usage_filter_pieces(filter: &UsageRecordFilter, alias: &str) -> (r: Vec<SqlPiece>)
    ensures
        pieces_view(r@) == usage_filter_spec(*filter, alias@),
{
    let mut out: Vec<SqlPiece> = Vec::new();
    assert(pieces_view(out@) == Seq::<PieceView>::empty());
    push_part_who(&mut out, filter, alias);
    push_part_route(&mut out, filter, alias);
    push_part_trace(&mut out, filter, alias);
    assert(pieces_view(out@) == usage_filter_spec(*filter, alias@));
    out
}

fn copy_slice(v: &[u8]) -> (r: Vec<u8>)
    ensures
        r@ == v@,
{
    let mut out: Vec<u8> = Vec::new();
    let mut i: usize = 0;
    while i < v.len()
        invariant
            i <= v.len(),
            out@ == v@.take(i as int),
        decreases v.len() - i,
    {
        out.push(v[i]);
        assert(v@.take(i + 1) == v@.take(i as int).push(v@[i as int]));
        i = i + 1;
    }
    assert(v@.take(v@.len() as int) == v@);
    out
}

/// A user's usage filter: the general filter, and, when a key is named, the
/// condition that a key of that reference still existing belongs to the user;
/// a deleted key is judged by the account recorded with each request.
pub open spec fn user_usage_filter_spec(f: UsageRecordFilter, alias: Seq<char>) -> Seq<PieceView> {
    usage_filter_spec(f, alias) + match (f.user_id, f.client_api_key_ref) {
        (Some(u), Some(k)) => seq![
            PieceView::Sql(
                " and (not exists (select 1 from client_api_keys selected_key where selected_key.id = "@,
            ),
            PieceView::Text(k@),
            PieceView::Sql(
                " ) or exists (select 1 from client_api_keys owned_key where owned_key.id = "@,
            ),
            PieceView::Text(k@),
            PieceView::Sql(" and owned_key.owner_user_id = "@),
            PieceView::Text(u@),
            PieceView::Sql("))"@),
        ],
        _ => Seq::<PieceView>::empty(),
    }
}

/// The conditions of a usage query scoped to one account.
pub fn user_usage_filter_pieces(filter: &UsageRecordFilter, alias: &str) -> (r: Vec<SqlPiece>)
    ensures
        pieces_view(r@) == user_usage_filter_spec(*filter, alias@),
{
    let mut out = usage_filter_pieces(filter, alias);
    if let (Some(user_id), Some(key_id)) = (&filter.user_id, &filter.client_api_key_ref) {
        push_piece(
            &mut out,
            SqlPiece::Sql(
                " and (not exists (select 1 from client_api_keys selected_key where selected_key.id = ".to_owned(),
            ),
        );
        push_piece(&mut out, SqlPiece::Bind(SqlBind::Text(key_id.clone())));
        push_piece(
            &mut out,
            SqlPiece::Sql(
                " ) or exists (select 1 from client_api_keys owned_key where owned_key.id = ".to_owned(),
            ),
        );
        push_piece(&mut out, SqlPiece::Bind(SqlBind::Text(key_id.clone())));
        push_piece(&mut out, SqlPiece::Sql(" and owned_key.owner_user_id = ".to_owned()));
        push_piece(&mut out, SqlPiece::Bind(SqlBind::Text(user_id.clone())));
        push_piece(&mut out, SqlPiece::Sql("))".to_owned()));
    }
    out
}

/// A user's usage query must be scoped to the signed-in account.
pub fn require_user_scope(filter: &UsageRecordFilter) -> (r: bool)
    ensures
        r == (filter.user_id matches Some(u) && u@.len() > 0),
{
    match &filter.user_id {
        Some(u) => !u.as_str().is_empty(),
        None => false,
    }
}

/// An optional filter text as a user gives it: trimmed, and dropped when blank.
pub fn non_empty(value: Option<String>) -> (r: Option<String>)
    ensures
        match r {
            Some(v) => non_blank(
                match value {
                    Some(x) => Some(x@),
                    None => None,
                },
            ) == Some(v@),
            None => non_blank(
                match value {
                    Some(x) => Some(x@),
                    None => None,
                },
            ) is None,
        },
{
    match value {
        Some(v) => {
            let t = trim(v.as_str());
            if t.as_str().is_empty() {
                None
            } else {
                Some(t)
            }
        },
        None => None,
    }
}

/// The record a user's detail query names: the trimmed id, which must be
/// non-empty and free of control characters (`id` otherwise).
pub fn usage_detail_id(id: &str) -> (r: Result<String, WireValidationError>)
    ensures
        r is Ok <==> trim_seq(id@).len() > 0 && !has_control(trim_seq(id@)),
        r matches Ok(t) ==> t@ == trim_seq(id@),
        r matches Err(e) ==> e.field == "id",
{
    let t = trim(id);
    if t.as_str().is_empty() || contains_control(t.as_str()) {
        return Err(WireValidationError::new("id"));
    }
    Ok(t)
}

/// The page of a user's usage query: page one unless given, and `default_size`
/// rows unless given; the page is numbered from one and holds one to `max_size`
/// rows (`currentPage` and `pageSize` otherwise).
pub fn usage_page(current_page: Option<u32>, page_size: Option<u16>, default_size: u16, max_size: u16) -> (r:
    Result<(u32, u16), WireValidationError>)
    ensures
        ({
            let page = match current_page {
                Some(p) => p,
                None => 1,
            };
            let size = match page_size {
                Some(s) => s,
                None => default_size,
            };
            &&& page == 0 ==> r == Err::<(u32, u16), WireValidationError>(
                WireValidationError { field: "currentPage" },
            )
            &&& page != 0 && (size == 0 || size > max_size) ==> r == Err::<(u32, u16), WireValidationError>(
                WireValidationError { field: "pageSize" },
            )
            &&& page != 0 && 0 < size <= max_size ==> r == Ok::<(u32, u16), WireValidationError>((page, size))
        }),
{
    let page = match current_page {
        Some(p) => p,
        None => 1,
    };
    if page == 0 {
        return Err(WireValidationError::new("currentPage"));
    }
    let size = match page_size {
        Some(s) => s,
        None => default_size,
    };
    if size == 0 || size > max_size {
        return Err(WireValidationError::new("pageSize"));
    }
    Ok((page, size))
}

/// The bucket size of a user's usage trend over `[start, end)`: hourly when the
/// range spans at most 36 whole hours, daily otherwise.
pub fn trend_granularity(start: i64, end: i64) -> (r: &'static str)
    ensures
        r@ == (if end - start < 37 * 3_600_000_000 {
            "1h"@
        } else {
            "1d"@
        }),
{
    if (end as i128) - (start as i128) < 133_200_000_000 {
        "1h"
    } else {
        "1d"
    }
}

} // verus!
