//! User accounts, session lifetimes and login protection settings, and the rules
//! the account services apply to them.

use vstd::prelude::*;

use vstd::utf8::encode_utf8;

use crate::crypto::{
    argon2_accepts, argon2_hash, argon2_verify, phc_hash_parses, random_bytes_32, unix_time_millis,
    uuid_v7_simple, uuid_v7_text, is_lower_hex_char, lemma_uuid_v7_text_shape,
};
use crate::error::{AdminError, AdminErrorKind};
use crate::policy::UserRateLimits;
use crate::text::{
    push_text,
    byte_len, char_count, chars_of, contains_control, has_control, is_trimmed, str_byte_len,
    str_eq, string_from_chars, trim, trim_seq,
};

verus! {

/// Longest browser session: 366 days, in minutes.
pub const MAX_SESSION_TTL_MINUTES: u64 = 527_040;

pub const MIN_PASSWORD_CHARS: usize = 12;

pub const MAX_PASSWORD_BYTES: usize = 1024;

pub const MAX_USERNAME_BYTES: usize = 128;

/// Browser user role.
#[derive(Debug, Clone, Copy, PartialEq, Eq, Structural)]
pub enum UserRole {
    Admin,
    User,
}

impl UserRole {
    pub open spec fn text(self) -> Seq<char> {
        match self {
            UserRole::Admin => "admin"@,
            UserRole::User => "user"@,
        }
    }

    pub fn as_str(self) -> (s: &'static str)
        ensures
            s@ == self.text(),
    {
        match self {
            UserRole::Admin => "admin",
            UserRole::User => "user",
        }
    }

    /// The role a stored or wire name stands for.
    pub fn parse(value: &str) -> (r: Option<UserRole>)
        ensures
            r matches Some(role) ==> role.text() == value@,
            r is None ==> value@ != "admin"@ && value@ != "user"@,
    {
        if str_eq(value, "admin") {
            Some(UserRole::Admin)
        } else if str_eq(value, "user") {
            Some(UserRole::User)
        } else {
            None
        }
    }
}

/// An account without its password hash.
#[derive(Debug, PartialEq, Eq)]
pub struct UserRecord {
    pub id: String,
    pub username: String,
    pub role: UserRole,
    pub enabled: bool,
    /// Account-level admission limits: `None` unlimited, `Some(0)` refuses.
    pub limits: UserRateLimits,
    pub session_version: u64,
    pub created_at: i64,
    pub updated_at: i64,
}

impl Clone for UserRecord {
    fn clone(&self) -> (r: Self)
        ensures
            r == *self,
    {
        UserRecord {
            id: self.id.clone(),
            username: self.username.clone(),
            role: self.role,
            enabled: self.enabled,
            limits: self.limits,
            session_version: self.session_version,
            created_at: self.created_at,
            updated_at: self.updated_at,
        }
    }
}

/// A provider profile: the members of a JSON object, each name with its value
/// written as JSON text.
#[derive(Debug, Clone, PartialEq, Eq, Default)]
pub struct ProviderProfile {
    pub members: Vec<(String, String)>,
}

/// An account's default upstream identity per provider; `None` inherits the
/// system's.
#[derive(Debug, Clone, PartialEq, Eq, Default)]
pub struct UserKeyIdentity {
    pub openai: Option<ProviderProfile>,
    pub xai: Option<ProviderProfile>,
}

/// A profile with at least one member; an empty object inherits, like no profile.
pub open spec fn kept_profile(p: Option<ProviderProfile>) -> Option<ProviderProfile> {
    match p {
        Some(v) => if v.members@.len() == 0 {
            None
        } else {
            Some(v)
        },
        None => None,
    }
}

/// Drops an empty profile.
pub fn keep_profile(p: Option<ProviderProfile>) -> (r: Option<ProviderProfile>)
    ensures
        r == kept_profile(p),
{
    match p {
        Some(v) => if v.members.len() == 0 {
            None
        } else {
            Some(v)
        },
        None => None,
    }
}

impl UserKeyIdentity {
    /// The identity as saved: an empty profile object is dropped, so the account
    /// inherits the system's for that provider.
    pub fn without_empty_profiles(self) -> (r: UserKeyIdentity)
        ensures
            r.openai == kept_profile(self.openai),
            r.xai == kept_profile(self.xai),
    {
        UserKeyIdentity { openai: keep_profile(self.openai), xai: keep_profile(self.xai) }
    }
}

/// An account with its password hash, as the credential store returns it.
/// It has no `Debug` form, so the hash cannot reach a log.
#[derive(Clone, PartialEq, Eq)]
pub struct UserCredentialRecord {
    pub user: UserRecord,
    pub password_hash: String,
}

/// Session lifetime overrides, in minutes.
#[derive(Debug, Clone, Copy, PartialEq, Eq, Structural)]
pub struct SessionTtlSettings {
    pub admin_minutes: u64,
    pub user_minutes: u64,
}

impl SessionTtlSettings {
    pub fn new(admin_minutes: u64, user_minutes: u64) -> (s: SessionTtlSettings)
        ensures
            s.admin_minutes == admin_minutes,
            s.user_minutes == user_minutes,
    {
        SessionTtlSettings { admin_minutes, user_minutes }
    }
}

/// Turnstile settings; the secret is readable only for verification or storage.
/// It has no `Debug` form, so the secret cannot reach a log.
#[derive(Clone, PartialEq, Eq)]
pub struct TurnstileSettings {
    pub enabled: bool,
    pub site_key: Option<String>,
    secret_key: Option<String>,
}

impl TurnstileSettings {
    pub closed spec fn spec_enabled(&self) -> bool {
        self.enabled
    }

    pub closed spec fn spec_site_key(&self) -> Option<Seq<char>> {
        match self.site_key {
            Some(s) => Some(s@),
            None => None,
        }
    }

    pub closed spec fn spec_secret(&self) -> Option<Seq<char>> {
        match self.secret_key {
            Some(s) => Some(s@),
            None => None,
        }
    }

    pub fn new(enabled: bool, site_key: Option<String>, secret_key: Option<String>) -> (s:
        TurnstileSettings)
        ensures
            s.spec_enabled() == enabled,
            s.spec_site_key() == match site_key {
                Some(k) => Some(k@),
                None => None::<Seq<char>>,
            },
            s.spec_secret() == match secret_key {
                Some(k) => Some(k@),
                None => None::<Seq<char>>,
            },
    {
        TurnstileSettings { enabled, site_key, secret_key }
    }

    pub fn is_enabled(&self) -> (b: bool)
        ensures
            b == self.spec_enabled(),
    {
        self.enabled
    }

    pub fn public_site_key(&self) -> (r: Option<&str>)
        ensures
            match r {
                Some(s) => self.spec_site_key() == Some(s@),
                None => self.spec_site_key() is None,
            },
    {
        match &self.site_key {
            Some(s) => Some(s.as_str()),
            None => None,
        }
    }

    pub fn secret_for_verification(&self) -> (r: Option<&str>)
        ensures
            match r {
                Some(s) => self.spec_secret() == Some(s@),
                None => self.spec_secret() is None,
            },
    {
        match &self.secret_key {
            Some(s) => Some(s.as_str()),
            None => None,
        }
    }

    pub fn secret_for_store(&self) -> (r: Option<&str>)
        ensures
            match r {
                Some(s) => self.spec_secret() == Some(s@),
                None => self.spec_secret() is None,
            },
    {
        match &self.secret_key {
            Some(s) => Some(s.as_str()),
            None => None,
        }
    }

    pub fn has_secret(&self) -> (b: bool)
        ensures
            b == self.spec_secret() is Some,
    {
        self.secret_key.is_some()
    }

    /// Disabled, with neither key.
    pub fn disabled() -> (s: TurnstileSettings)
        ensures
            !s.spec_enabled(),
            s.spec_site_key() is None,
            s.spec_secret() is None,
    {
        Self::new(false, None, None)
    }
}

/// The protection settings an unauthenticated login page may read.
#[derive(Debug, Clone, PartialEq, Eq)]
pub struct PublicAuthSettings {
    pub turnstile_enabled: bool,
    pub turnstile_site_key: Option<String>,
}

#[derive(Clone, PartialEq, Eq)]
pub struct CreateUser {
    pub username: String,
    pub password: String,
    pub role: UserRole,
    pub enabled: bool,
}

#[derive(Debug, Clone, PartialEq, Eq)]
pub struct UpdateUser {
    pub user_id: String,
    pub username: Option<String>,
    pub role: Option<UserRole>,
    pub enabled: Option<bool>,
    /// `None` keeps the value; `Some(None)` sets it to unlimited.
    pub max_concurrency: Option<Option<u64>>,
    pub requests_per_minute: Option<Option<u64>>,
}

#[derive(Clone, PartialEq, Eq)]
pub struct ResetUserPassword {
    pub user_id: String,
    pub password: String,
}

#[derive(Clone, PartialEq, Eq)]
pub struct UpdateOwnUsername {
    pub user_id: String,
    pub current_session_id: String,
    pub current_password: String,
    pub username: String,
}

#[derive(Clone, PartialEq, Eq)]
pub struct UpdateOwnPassword {
    pub user_id: String,
    pub current_session_id: String,
    pub current_password: String,
    pub new_password: String,
}

/// A username is non-empty, at most 128 bytes, has no surrounding white space
/// and no control character.
pub open spec fn username_ok(s: Seq<char>) -> bool {
    &&& s.len() > 0
    &&& byte_len(s) <= MAX_USERNAME_BYTES
    &&& trim_seq(s) == s
    &&& !has_control(s)
}

/// Checks a username (`Invalid`).
pub fn validate_username(username: &str) -> (r: Result<(), AdminError>)
    ensures
        r is Ok <==> username_ok(username@),
        r matches Err(e) ==> e.kind == AdminErrorKind::Invalid && e.message == "用户名格式不合法",
{
    if username.is_empty() || str_byte_len(username) > MAX_USERNAME_BYTES || !is_trimmed(username)
        || contains_control(username) {
        return Err(AdminError::invalid("用户名格式不合法"));
    }
    Ok(())
}

pub open spec fn ascii_lower(c: char) -> char {
    if 'A' <= c && c <= 'Z' {
        ((c as u32) + 32) as char
    } else {
        c
    }
}

/// ASCII letters folded to lower case; other characters kept.
pub open spec fn ascii_lowercase(s: Seq<char>) -> Seq<char> {
    s.map_values(|c: char| ascii_lower(c))
}

/// The text with ASCII letters lower-cased.
pub fn to_ascii_lowercase(s: &str) -> (r: String)
    ensures
        r@ == ascii_lowercase(s@),
{
    let chars = chars_of(s);
    let mut out: Vec<char> = Vec::new();
    let mut i: usize = 0;
    while i < chars.len()
        invariant
            i <= chars.len(),
            out@ == ascii_lowercase(chars@.take(i as int)),
        decreases chars.len() - i,
    {
        let c = chars[i];
        let lower = if 'A' <= c && c <= 'Z' {
            ((c as u8) + 32) as char
        } else {
            c
        };
        out.push(lower);
        i = i + 1;
        assert(ascii_lowercase(chars@.take(i as int)) =~= ascii_lowercase(
            chars@.take(i - 1),
        ).push(ascii_lower(chars@[i - 1])));
    }
    assert(chars@.take(chars.len() as int) == chars@);
    string_from_chars(&out)
}

/// A password has at least 12 characters once trimmed, at most 1024 bytes, no
/// control character, and is not one of the listed weak passwords (compared
/// trimmed and in ASCII lower case).
pub open spec fn password_ok(password: Seq<char>, weak: Seq<Seq<char>>) -> bool {
    &&& trim_seq(password).len() >= MIN_PASSWORD_CHARS
    &&& byte_len(password) <= MAX_PASSWORD_BYTES
    &&& !has_control(password)
    &&& !weak.contains(ascii_lowercase(trim_seq(password)))
}

/// Checks a new password against the length rules and the weak list (`Invalid`).
pub fn validate_password(password: &str, weak_passwords: &Vec<String>) -> (r: Result<(), AdminError>)
    ensures
        r is Ok <==> password_ok(password@, weak_passwords@.map_values(|w: String| w@)),
        r matches Err(e) ==> e.kind == AdminErrorKind::Invalid && e.message == "密码至少需要 12 个字符，最多 1024 字节，不能使用常见弱口令或控制字符",
{
    let trimmed = trim(password);
    let lowered = to_ascii_lowercase(trimmed.as_str());
    let mut weak = false;
    let mut i: usize = 0;
    let ghost ws = weak_passwords@.map_values(|w: String| w@);
    while i < weak_passwords.len()
        invariant
            i <= weak_passwords.len(),
            ws == weak_passwords@.map_values(|w: String| w@),
            weak == exists|j: int| 0 <= j < i && #[trigger] ws[j] == lowered@,
        decreases weak_passwords.len() - i,
    {
        assert(ws[i as int] == weak_passwords@[i as int]@);
        if str_eq(weak_passwords[i].as_str(), lowered.as_str()) {
            assert(ws[i as int] == lowered@);
            weak = true;
        }
        i = i + 1;
    }
    assert(weak == ws.contains(lowered@));
    if char_count(trimmed.as_str()) < MIN_PASSWORD_CHARS || str_byte_len(password)
        > MAX_PASSWORD_BYTES || contains_control(password) || weak {
        return Err(
            AdminError::invalid(
                "密码至少需要 12 个字符，最多 1024 字节，不能使用常见弱口令或控制字符",
            ),
        );
    }
    Ok(())
}

/// The listed weak passwords, as texts.
pub open spec fn weak_texts(weak_passwords: Seq<String>) -> Seq<Seq<char>> {
    weak_passwords.map_values(|w: String| w@)
}

/// A password accepted by `validate_password`, hashed with Argon2 into a PHC
/// string. A refused password gives `Invalid`; a failure of the hasher, `Internal`.
pub fn hash_password(password: &str, weak_passwords: &Vec<String>) -> (r: Result<String, AdminError>)
    ensures
        !password_ok(password@, weak_texts(weak_passwords@)) ==> (r matches Err(e) && e.kind
            == AdminErrorKind::Invalid && e.message == "密码至少需要 12 个字符，最多 1024 字节，不能使用常见弱口令或控制字符"),
        password_ok(password@, weak_texts(weak_passwords@)) ==> (r is Ok || (r matches Err(e)
            && e.kind == AdminErrorKind::Internal && e.message == "密码哈希失败")),
        r matches Ok(h) ==> phc_hash_parses(h@) && argon2_accepts(encode_utf8(password@), h@),
{
    validate_password(password, weak_passwords)?;
    match argon2_hash(password.as_bytes()) {
        Some(h) => Ok(h),
        None => Err(AdminError::internal("密码哈希失败")),
    }
}

/// Whether `password` matches the stored PHC string; `Internal` when the stored
/// string is not a PHC hash.
pub fn verify_password(password: &str, encoded: &str) -> (r: Result<bool, AdminError>)
    ensures
        r is Ok <==> phc_hash_parses(encoded@),
        r matches Ok(v) ==> v == argon2_accepts(encode_utf8(password@), encoded@),
        r matches Err(e) ==> e.kind == AdminErrorKind::Internal && e.message == "已保存的密码哈希不合法",
{
    match argon2_verify(password.as_bytes(), encoded) {
        Some(v) => Ok(v),
        None => Err(AdminError::internal("已保存的密码哈希不合法")),
    }
}

/// The new hash of an administrator's password reset: the new password must
/// differ from the current one (`Invalid`) and pass `validate_password`
/// (`Invalid`); a stored hash that is not a PHC string, or a failure of the
/// hasher, is `Internal`.
pub fn reset_password_hash(current: &UserCredentialRecord, password: &str, weak_passwords: &Vec<String>) -> (r:
    Result<String, AdminError>)
    ensures
        !phc_hash_parses(current.password_hash@) ==> (r matches Err(e) && e.kind
            == AdminErrorKind::Internal && e.message == "已保存的密码哈希不合法"),
        phc_hash_parses(current.password_hash@) && argon2_accepts(
            encode_utf8(password@),
            current.password_hash@,
        ) ==> (r matches Err(e) && e.kind == AdminErrorKind::Invalid && e.message
            == "新密码不能与当前密码相同"),
        phc_hash_parses(current.password_hash@) && !argon2_accepts(
            encode_utf8(password@),
            current.password_hash@,
        ) && !password_ok(password@, weak_texts(weak_passwords@)) ==> (r matches Err(e) && e.kind
            == AdminErrorKind::Invalid && e.message == "密码至少需要 12 个字符，最多 1024 字节，不能使用常见弱口令或控制字符"),
        phc_hash_parses(current.password_hash@) && !argon2_accepts(
            encode_utf8(password@),
            current.password_hash@,
        ) && password_ok(password@, weak_texts(weak_passwords@)) ==> (r is Ok || (r matches Err(e)
            && e.kind == AdminErrorKind::Internal && e.message == "密码哈希失败")),
        r matches Ok(h) ==> phc_hash_parses(h@) && argon2_accepts(encode_utf8(password@), h@),
{
    if verify_password(password, current.password_hash.as_str())? {
        return Err(AdminError::invalid("新密码不能与当前密码相同"));
    }
    hash_password(password, weak_passwords)
}

/// The account a signed-in user sees as their own; a disabled account is
/// refused (`Unauthorized`).
pub fn enabled_account(current: &UserCredentialRecord) -> (r: Result<UserRecord, AdminError>)
    ensures
        r is Ok <==> current.user.enabled,
        r matches Ok(u) ==> u == current.user,
        r matches Err(e) ==> e.kind == AdminErrorKind::Unauthorized && e.message == "用户已被禁用",
{
    if !current.user.enabled {
        return Err(AdminError::new(AdminErrorKind::Unauthorized, "用户已被禁用"));
    }
    Ok(current.user.clone())
}

/// The message of an identifier that could not be generated.
pub const ID_FAILURE: &'static str = "生成标识失败";

/// `prefix` followed by a fresh identifier of 32 lower-case hexadecimal digits.
pub open spec fn generated_id(prefix: Seq<char>, id: Seq<char>) -> bool {
    &&& id.len() == prefix.len() + 32
    &&& id.take(prefix.len() as int) == prefix
    &&& forall|i: int| prefix.len() <= i < id.len() ==> is_lower_hex_char(#[trigger] id[i])
}

/// The identifier made from a Unix time in milliseconds and the first ten of
/// `random`: `prefix` and the simple text of their version 7 UUID.
pub fn prefixed_id_from(prefix: &str, millis: u64, random: &[u8]) -> (r: String)
    requires
        random@.len() >= 10,
    ensures
        r@ == prefix@ + uuid_v7_text(millis, random@.take(10)),
        generated_id(prefix@, r@),
{
    let mut first: Vec<u8> = Vec::new();
    let mut k: usize = 0;
    while k < 10
        invariant
            k <= 10,
            random@.len() >= 10,
            first@ == random@.take(k as int),
        decreases 10 - k,
    {
        first.push(random[k]);
        assert(random@.take(k + 1) =~= random@.take(k as int).push(random@[k as int]));
        k = k + 1;
    }
    let u = uuid_v7_simple(millis, first.as_slice());
    proof {
        lemma_uuid_v7_text_shape(millis, first@);
    }
    let mut out = String::new();
    push_text(&mut out, prefix);
    push_text(&mut out, u.as_str());
    assert(out@.take(prefix@.len() as int) =~= prefix@);
    assert forall|i: int| prefix@.len() <= i < out@.len() implies is_lower_hex_char(#[trigger] out@[i]) by {
        assert(out@[i] == u@[i - prefix@.len()]);
    }
    out
}

/// A fresh identifier: `prefix` and a version 7 UUID of the current time and
/// ten bytes from the operating system's generator; `None` when the clock reads
/// before the epoch or the generator fails.
pub fn new_prefixed_id(prefix: &str) -> (r: Option<String>)
    ensures
        r matches Some(id) ==> exists|m: u64, b: Seq<u8>| b.len() == 10 && id@ == prefix@ + uuid_v7_text(m, b),
        r matches Some(id) ==> generated_id(prefix@, id@),
{
    let millis = match unix_time_millis() {
        Some(m) => m,
        None => {
            return None;
        },
    };
    let bytes = match random_bytes_32() {
        Some(b) => b,
        None => {
            return None;
        },
    };
    let id = prefixed_id_from(prefix, millis, bytes.as_slice());
    proof {
        assert(bytes@.take(10).len() == 10);
    }
    Some(id)
}

/// A fresh identifier under `prefix`, or `Internal` when none can be generated.
pub fn fresh_id(prefix: &str) -> (r: Result<String, AdminError>)
    ensures
        r matches Ok(id) ==> exists|m: u64, b: Seq<u8>| b.len() == 10 && id@ == prefix@ + uuid_v7_text(m, b),
        r matches Ok(id) ==> generated_id(prefix@, id@),
        r matches Err(e) ==> e.kind == AdminErrorKind::Internal && e.message == ID_FAILURE,
{
    match new_prefixed_id(prefix) {
        Some(id) => Ok(id),
        None => Err(AdminError::internal(ID_FAILURE)),
    }
}

/// A new account from an administrator's request: the request is checked as by
/// `new_user_record`, the password is validated and hashed, and the account gets a
/// fresh `user_` identifier.
pub fn create_user_record(command: &CreateUser, weak_passwords: &Vec<String>, now: i64) -> (r:
    Result<UserCredentialRecord, AdminError>)
    ensures
        command.role == UserRole::Admin ==> (r matches Err(e) && e.kind
            == AdminErrorKind::Forbidden && e.message == "只能通过启动配置初始化管理员"),
        command.role == UserRole::User && !username_ok(command.username@) ==> (r matches Err(e)
            && e.kind == AdminErrorKind::Invalid && e.message == "用户名格式不合法"),
        command.role == UserRole::User && username_ok(command.username@) && !password_ok(
            command.password@,
            weak_texts(weak_passwords@),
        ) ==> (r matches Err(e) && e.kind == AdminErrorKind::Invalid && e.message == "密码至少需要 12 个字符，最多 1024 字节，不能使用常见弱口令或控制字符"),
        command.role == UserRole::User && username_ok(command.username@) && password_ok(
            command.password@,
            weak_texts(weak_passwords@),
        ) ==> (r is Ok || (r matches Err(e) && e.kind == AdminErrorKind::Internal && (e.message
            == "密码哈希失败" || e.message == ID_FAILURE))),
        r matches Ok(c) ==> (exists|m: u64, b: Seq<u8>| b.len() == 10 && c.user.id@ == "user_"@ + uuid_v7_text(m, b)),
        r matches Ok(c) ==> generated_id("user_"@, c.user.id@) && c.user.username
            == command.username && c.user.role == UserRole::User && c.user.enabled
            == command.enabled && c.user.limits == (UserRateLimits {
            max_concurrency: Some(0),
            requests_per_minute: Some(0),
        }) && c.user.session_version == 1 && c.user.created_at == now && c.user.updated_at == now
            && phc_hash_parses(c.password_hash@) && argon2_accepts(
            encode_utf8(command.password@),
            c.password_hash@,
        ),
{
    if command.role == UserRole::Admin {
        return Err(AdminError::new(AdminErrorKind::Forbidden, "只能通过启动配置初始化管理员"));
    }
    validate_username(command.username.as_str())?;
    let password_hash = hash_password(command.password.as_str(), weak_passwords)?;
    let id = match new_prefixed_id("user_") {
        Some(id) => id,
        None => {
            return Err(AdminError::internal(ID_FAILURE));
        },
    };
    new_user_record(command, id, password_hash, now)
}

/// Both lifetimes lie between one minute and 366 days.
pub open spec fn session_ttl_ok(s: SessionTtlSettings) -> bool {
    1 <= s.admin_minutes <= MAX_SESSION_TTL_MINUTES && 1 <= s.user_minutes
        <= MAX_SESSION_TTL_MINUTES
}

/// Session lifetimes must lie between a minute and 366 days (`Invalid`).
pub fn validate_session_ttl(settings: SessionTtlSettings) -> (r: Result<(), AdminError>)
    ensures
        r is Ok <==> session_ttl_ok(settings),
        r matches Err(e) ==> e.kind == AdminErrorKind::Invalid && e.message == "Session TTL 必须在 1 分钟到 366 天之间",
{
    if settings.admin_minutes == 0 || settings.user_minutes == 0 || settings.admin_minutes
        > MAX_SESSION_TTL_MINUTES || settings.user_minutes > MAX_SESSION_TTL_MINUTES {
        return Err(AdminError::invalid("Session TTL 必须在 1 分钟到 366 天之间"));
    }
    Ok(())
}

pub open spec fn clamp_minutes(m: u64) -> u64 {
    if m < 1 {
        1
    } else if m > MAX_SESSION_TTL_MINUTES {
        MAX_SESSION_TTL_MINUTES
    } else {
        m
    }
}

/// Startup lifetimes, clamped into one minute to 366 days.
pub fn default_session_ttl(admin_minutes: u64, user_minutes: u64) -> (s: SessionTtlSettings)
    ensures
        s.admin_minutes == clamp_minutes(admin_minutes),
        s.user_minutes == clamp_minutes(user_minutes),
        session_ttl_ok(s),
{
    let clamp = |m: u64| -> (r: u64)
        ensures
            r == clamp_minutes(m),
        {
            if m < 1 {
                1
            } else if m > MAX_SESSION_TTL_MINUTES {
                MAX_SESSION_TTL_MINUTES
            } else {
                m
            }
        };
    SessionTtlSettings::new(clamp(admin_minutes), clamp(user_minutes))
}

/// Text trimmed, and dropped when blank.
pub open spec fn non_blank(s: Option<Seq<char>>) -> Option<Seq<char>> {
    match s {
        Some(v) => if trim_seq(v).len() == 0 {
            None
        } else {
            Some(trim_seq(v))
        },
        None => None,
    }
}

fn trimmed_non_blank(s: Option<String>) -> (r: Option<String>)
    ensures
        match r {
            Some(v) => non_blank(
                match s {
                    Some(x) => Some(x@),
                    None => None,
                },
            ) == Some(v@),
            None => non_blank(
                match s {
                    Some(x) => Some(x@),
                    None => None,
                },
            ) is None,
        },
{
    match s {
        Some(v) => {
            let t = trim(v.as_str());
            if t.as_str().is_empty() {
                None
            } else {
                Some(t)
            }
        },
        None => None,
    }
}

/// The Turnstile settings to store: omitted keys keep the current ones, keys are
/// trimmed and blank keys dropped; enabling needs both keys.
pub fn merge_turnstile_settings(
    current: &TurnstileSettings,
    enabled: bool,
    site_key: Option<String>,
    secret_key: Option<String>,
) -> (r: Result<TurnstileSettings, AdminError>)
    ensures
        ({
            let site = non_blank(
                match site_key {
                    Some(k) => Some(k@),
                    None => current.spec_site_key(),
                },
            );
            let secret = non_blank(
                match secret_key {
                    Some(k) => Some(k@),
                    None => current.spec_secret(),
                },
            );
            &&& r is Ok <==> !(enabled && (site is None || secret is None))
            &&& r matches Ok(s) ==> s.spec_enabled() == enabled && s.spec_site_key() == site
                && s.spec_secret() == secret
        }),
        r matches Err(e) ==> e.kind == AdminErrorKind::Invalid && e.message == "启用 Turnstile 前必须配置 site key 和 secret key",
{
    let site = match site_key {
        Some(k) => Some(k),
        None => match &current.site_key {
            Some(k) => Some(k.clone()),
            None => None,
        },
    };
    let secret = match secret_key {
        Some(k) => Some(k),
        None => match current.secret_for_verification() {
            Some(s) => Some(s.to_owned()),
            None => None,
        },
    };
    let site = trimmed_non_blank(site);
    let secret = trimmed_non_blank(secret);
    if enabled && (site.is_none() || secret.is_none()) {
        return Err(AdminError::invalid("启用 Turnstile 前必须配置 site key 和 secret key"));
    }
    Ok(TurnstileSettings::new(enabled, site, secret))
}

/// Whether some other enabled administrator exists besides `user_id`.
pub open spec fn other_enabled_admin(users: Seq<UserRecord>, user_id: Seq<char>) -> bool {
    exists|i: int|
        0 <= i < users.len() && #[trigger] users[i].id@ != user_id && users[i].enabled
            && users[i].role == UserRole::Admin
}

/// Whether an enabled administrator other than `user_id` remains.
pub fn has_other_enabled_admin(users: &Vec<UserRecord>, user_id: &str) -> (b: bool)
    ensures
        b == other_enabled_admin(users@, user_id@),
{
    let mut i: usize = 0;
    while i < users.len()
        invariant
            i <= users.len(),
            forall|j: int|
                0 <= j < i ==> !(#[trigger] users@[j].id@ != user_id@ && users@[j].enabled
                    && users@[j].role == UserRole::Admin),
        decreases users.len() - i,
    {
        let u = &users[i];
        if u.enabled && u.role == UserRole::Admin && !str_eq(u.id.as_str(), user_id) {
            return true;
        }
        i = i + 1;
    }
    false
}

/// The edit takes an enabled administrator out of the enabled administrators.
pub open spec fn removes_enabled_admin(current: UserRecord, command: UpdateUser) -> bool {
    current.role == UserRole::Admin && current.enabled && (command.role == Some(UserRole::User)
        || command.enabled == Some(false))
}

/// An account edit keeps at least one enabled administrator and a valid username.
pub fn check_user_update(current: &UserRecord, command: &UpdateUser, users: &Vec<UserRecord>) -> (r:
    Result<(), AdminError>)
    ensures
        r is Ok <==> (command.username matches Some(u) ==> username_ok(u@)) && (removes_enabled_admin(
            *current,
            *command,
        ) ==> other_enabled_admin(users@, command.user_id@)),
        r matches Err(e) ==> if command.username matches Some(u) && !username_ok(u@) {
            e.kind == AdminErrorKind::Invalid && e.message == "用户名格式不合法"
        } else {
            e.kind == AdminErrorKind::Forbidden && e.message == "至少需要保留一个启用的管理员账户"
        },
{
    if let Some(username) = &command.username {
        validate_username(username.as_str())?;
    }
    let removes = current.role == UserRole::Admin && current.enabled && (command.role == Some(
        UserRole::User,
    ) || command.enabled == Some(false));
    if removes && !has_other_enabled_admin(users, command.user_id.as_str()) {
        return Err(AdminError::new(AdminErrorKind::Forbidden, "至少需要保留一个启用的管理员账户"));
    }
    Ok(())
}

/// Deleting an account: an administrator cannot delete the account it is signed in
/// with, and the last enabled administrator cannot be deleted.
pub fn check_user_delete(
    actor_admin_user_id: Option<&str>,
    current: &UserRecord,
    users: &Vec<UserRecord>,
) -> (r: Result<(), AdminError>)
    ensures
        r is Ok <==> !(actor_admin_user_id matches Some(a) && a@ == current.id@) && (
        current.role == UserRole::Admin && current.enabled ==> other_enabled_admin(
            users@,
            current.id@,
        )),
        r matches Err(e) ==> e.kind == AdminErrorKind::Forbidden && e.message == if actor_admin_user_id matches Some(
            a,
        ) && a@ == current.id@ {
            "当前登录管理员不能删除自己的账户"
        } else {
            "至少需要保留一个启用的管理员账户"
        },
{
    if let Some(actor) = actor_admin_user_id {
        if str_eq(actor, current.id.as_str()) {
            return Err(AdminError::new(AdminErrorKind::Forbidden, "当前登录管理员不能删除自己的账户"));
        }
    }
    if current.role == UserRole::Admin && current.enabled && !has_other_enabled_admin(
        users,
        current.id.as_str(),
    ) {
        return Err(AdminError::new(AdminErrorKind::Forbidden, "至少需要保留一个启用的管理员账户"));
    }
    Ok(())
}

/// A new account created by an administrator: never an administrator, a valid
/// username, zero account limits until configured, and session version one.
pub fn new_user_record(command: &CreateUser, id: String, password_hash: String, now: i64) -> (r:
    Result<UserCredentialRecord, AdminError>)
    ensures
        command.role == UserRole::Admin ==> (r matches Err(e) && e.kind
            == AdminErrorKind::Forbidden && e.message == "只能通过启动配置初始化管理员"),
        command.role == UserRole::User ==> (r matches Err(e) ==> e.kind == AdminErrorKind::Invalid
            && e.message == "用户名格式不合法"),
        command.role == UserRole::User ==> (r is Ok <==> username_ok(command.username@)),
        r matches Ok(c) ==> c.user.id == id && c.user.username == command.username && c.user.role
            == UserRole::User && c.user.enabled == command.enabled && c.user.limits
            == (UserRateLimits { max_concurrency: Some(0), requests_per_minute: Some(0) })
            && c.user.session_version == 1 && c.user.created_at == now && c.user.updated_at == now
            && c.password_hash == password_hash,
{
    if command.role == UserRole::Admin {
        return Err(AdminError::new(AdminErrorKind::Forbidden, "只能通过启动配置初始化管理员"));
    }
    validate_username(command.username.as_str())?;
    Ok(
        UserCredentialRecord {
            user: UserRecord {
                id,
                username: command.username.clone(),
                role: command.role,
                enabled: command.enabled,
                limits: UserRateLimits { max_concurrency: Some(0), requests_per_minute: Some(0) },
                session_version: 1,
                created_at: now,
                updated_at: now,
            },
            password_hash,
        },
    )
}

/// The session version after a password change; `Err` when it cannot advance.
pub fn next_session_version(current: u64) -> (r: Result<u64, AdminError>)
    ensures
        r is Ok <==> current < u64::MAX,
        r matches Ok(v) ==> v == current + 1,
        r matches Err(e) ==> e.kind == AdminErrorKind::Unavailable && e.message == "会话版本不可用",
{
    match current.checked_add(1) {
        Some(v) => Ok(v),
        None => Err(AdminError::new(AdminErrorKind::Unavailable, "会话版本不可用")),
    }
}

} // verus!
