//! Errors of the storage layer and the mappings into them.

use vstd::prelude::*;

use crate::common::prefixed;
use crate::errors::app_error::{app_error_from_db, app_error_text, AppError};

verus! {

/// Declares `sqlx::Error` so that its values can be mapped.
#[verifier::external_type_specification]
#[verifier::external_body]
pub struct ExSqlxError(sqlx::Error);

/// Declares `redis::RedisError` so that its values can be mapped.
#[verifier::external_type_specification]
#[verifier::external_body]
pub struct ExRedisError(bb8_redis::redis::RedisError);

/// Declares `bb8::RunError`, the error of taking a connection from a pool.
#[verifier::external_type_specification]
#[verifier::external_body]
#[verifier::reject_recursive_types(E)]
pub struct ExRunError<E>(bb8_redis::bb8::RunError<E>);

/// Declares `bb8_redis::RedisConnectionManager`.
#[verifier::external_type_specification]
#[verifier::external_body]
pub struct ExRedisConnectionManager(bb8_redis::RedisConnectionManager);

/// Declares `uuid::Error` so that its values can be mapped.
#[verifier::external_type_specification]
#[verifier::external_body]
pub struct ExUuidError(uuid::Error);

/// An error of the storage layer.
#[derive(Debug)]
pub enum DbError {
    ConnectionError(String),
    QueryError(String),
    NotFound(String),
    Timeout(String),
    Unknown(String),
    FromDatabase(String),
}

/// The variants of `sqlx::Error` that are told apart.
#[derive(Debug, Clone, Copy, PartialEq, Eq, Structural)]
pub enum SqlxErrorKind {
    RowNotFound,
    Database,
    Io,
    Tls,
    Protocol,
    Configuration,
    ColumnNotFound,
    Other,
}

/// The variant of a `sqlx::Error`, as far as the mapping tells variants apart.
pub uninterp spec fn sqlx_error_kind(err: sqlx::Error) -> SqlxErrorKind;

/// The text of a `sqlx::Error` that the mapping keeps.
pub uninterp spec fn sqlx_error_text(err: sqlx::Error) -> Seq<char>;

/// Tells the variant of a `sqlx::Error` apart and gives the text that the mapping keeps:
/// the text of the error inside `Database`, `Io`, `Tls` and `Configuration`, the string
/// inside `Protocol` and `ColumnNotFound`, the text of the whole error for every other
/// variant, and an empty text for `RowNotFound`. One arm per variant told apart. Both parts
/// depend on the error alone, so they are named.
#[verifier::external_body]
fn sqlx_error_parts(err: &sqlx::Error) -> (r: (SqlxErrorKind, String))
    ensures
        r.0 == sqlx_error_kind(*err),
        r.1@ == sqlx_error_text(*err),
{
    match err {
        sqlx::Error::RowNotFound => (SqlxErrorKind::RowNotFound, String::new()),
        sqlx::Error::Database(e) => (SqlxErrorKind::Database, e.to_string()),
        sqlx::Error::Io(e) => (SqlxErrorKind::Io, e.to_string()),
        sqlx::Error::Tls(e) => (SqlxErrorKind::Tls, e.to_string()),
        sqlx::Error::Protocol(s) => (SqlxErrorKind::Protocol, s.clone()),
        sqlx::Error::Configuration(e) => (SqlxErrorKind::Configuration, e.to_string()),
        sqlx::Error::ColumnNotFound(s) => (SqlxErrorKind::ColumnNotFound, s.clone()),
        _ => (SqlxErrorKind::Other, err.to_string()),
    }
}

/// Whether a redis error is of kind `AuthenticationFailed`.
pub uninterp spec fn redis_error_is_auth_failed(err: bb8_redis::redis::RedisError) -> bool;

/// Whether a `redis::RedisError` is of kind `AuthenticationFailed` (`RedisError::kind`).
#[verifier::external_body]
fn redis_error_is_authentication(err: &bb8_redis::redis::RedisError) -> (r: bool)
    ensures
        r == redis_error_is_auth_failed(*err),
{
    err.kind() == bb8_redis::redis::ErrorKind::AuthenticationFailed
}

/// Whether a pool error is `TimedOut`.
pub uninterp spec fn pool_error_timed_out(err: bb8_redis::bb8::RunError<bb8_redis::redis::RedisError>) -> bool;

/// The redis error inside a pool error that is `User`.
pub uninterp spec fn pool_error_inner(
    err: bb8_redis::bb8::RunError<bb8_redis::redis::RedisError>,
) -> bb8_redis::redis::RedisError;

/// Tells a `bb8::RunError<RedisError>` apart: the redis error inside `User`, nothing for
/// `TimedOut`.
#[verifier::external_body]
fn pool_error_user(
    err: &bb8_redis::bb8::RunError<bb8_redis::redis::RedisError>,
) -> (r: Option<&bb8_redis::redis::RedisError>)
    ensures
        r is None == pool_error_timed_out(*err),
        r matches Some(e) ==> *e == pool_error_inner(*err),
{
    match err {
        bb8_redis::bb8::RunError::User(e) => Some(e),
        bb8_redis::bb8::RunError::TimedOut => None,
    }
}

/// Whether a pool error with the connection manager as its error type is `TimedOut`.
pub uninterp spec fn manager_pool_error_is_timed_out(
    err: bb8_redis::bb8::RunError<bb8_redis::RedisConnectionManager>,
) -> bool;

/// Tells whether a `bb8::RunError<RedisConnectionManager>` is `TimedOut`.
#[verifier::external_body]
fn manager_pool_error_timed_out(
    err: &bb8_redis::bb8::RunError<bb8_redis::RedisConnectionManager>,
) -> (r: bool)
    ensures
        r == manager_pool_error_is_timed_out(*err),
{
    matches!(err, bb8_redis::bb8::RunError::TimedOut)
}

/// The storage error for a `sqlx` error of the given variant with the given text.
pub open spec fn is_sqlx_mapping(kind: SqlxErrorKind, text: String, r: DbError) -> bool {
    match kind {
        SqlxErrorKind::RowNotFound => r matches DbError::NotFound(m) && m@ == "Row not found"@,
        SqlxErrorKind::Database => r == DbError::FromDatabase(text),
        SqlxErrorKind::Io => r == DbError::FromDatabase(text),
        SqlxErrorKind::Tls => r == DbError::ConnectionError(text),
        SqlxErrorKind::Protocol => r == DbError::ConnectionError(text),
        SqlxErrorKind::Configuration => r == DbError::ConnectionError(text),
        SqlxErrorKind::ColumnNotFound => r == DbError::NotFound(text),
        SqlxErrorKind::Other => r == DbError::Unknown(text),
    }
}

impl DbError {
    /// The storage error for a `sqlx` error, given its variant and the text the mapping keeps:
    /// a missing row or column is not found, a database or I/O failure comes from the
    /// database, a TLS, protocol or configuration failure is a connection error, and every
    /// other error is unknown.
    pub fn from_sqlx_parts(kind: SqlxErrorKind, text: String) -> (r: DbError)
        ensures
            is_sqlx_mapping(kind, text, r),
    {
        match kind {
            SqlxErrorKind::RowNotFound => DbError::NotFound(String::from_str("Row not found")),
            SqlxErrorKind::Database => DbError::FromDatabase(text),
            SqlxErrorKind::Io => DbError::FromDatabase(text),
            SqlxErrorKind::Tls => DbError::ConnectionError(text),
            SqlxErrorKind::Protocol => DbError::ConnectionError(text),
            SqlxErrorKind::Configuration => DbError::ConnectionError(text),
            SqlxErrorKind::ColumnNotFound => DbError::NotFound(text),
            SqlxErrorKind::Other => DbError::Unknown(text),
        }
    }

    /// The storage error for a `sqlx` error: mapped by its variant, keeping its text.
    pub fn from_sqlx_error(err: &sqlx::Error) -> (r: DbError)
        ensures
            exists|text: String|
                text@ == sqlx_error_text(*err) && #[trigger] is_sqlx_mapping(sqlx_error_kind(*err), text, r),
    {
        let (kind, text) = sqlx_error_parts(err);
        let r = Self::from_sqlx_parts(kind, text);
        assert(is_sqlx_mapping(kind, text, r));
        r
    }

    /// The storage error for a redis error, given whether authentication failed and the
    /// error's text: a failed authentication is a connection error, anything else unknown.
    pub fn from_redis_parts(authentication_failed: bool, text: &String) -> (r: DbError)
        ensures
            authentication_failed ==> (r matches DbError::ConnectionError(m)
                && m@ == "Redis Authentication Failed "@ + text@),
            !authentication_failed ==> (r matches DbError::Unknown(m) && m@ == "Redis Error "@ + text@),
    {
        if authentication_failed {
            DbError::ConnectionError(prefixed("Redis Authentication Failed ", text))
        } else {
            DbError::Unknown(prefixed("Redis Error ", text))
        }
    }

    /// The storage error for a redis error: a connection error when authentication failed,
    /// else unknown, with the error's text.
    pub fn from_redis_error(err: &bb8_redis::redis::RedisError) -> (r: DbError)
        ensures
            exists|text: String|
                #![trigger vstd::string::to_string_from_display_ensures::<bb8_redis::redis::RedisError>(err, text)]
                vstd::string::to_string_from_display_ensures::<bb8_redis::redis::RedisError>(err, text)
                && (redis_error_is_auth_failed(*err) ==> (r matches DbError::ConnectionError(m)
                    && m@ == "Redis Authentication Failed "@ + text@))
                && (!redis_error_is_auth_failed(*err) ==> (r matches DbError::Unknown(m)
                    && m@ == "Redis Error "@ + text@)),
    {
        let authentication_failed = redis_error_is_authentication(err);
        let text = err.to_string();
        Self::from_redis_parts(authentication_failed, &text)
    }

    /// The storage error for a failure to take a redis connection from the pool, given the
    /// text of the redis error if there was one: a redis error is a connection error with
    /// its text, else the pool timed out.
    pub fn from_pool_parts(user_error: Option<String>) -> (r: DbError)
        ensures
            user_error matches Some(t) ==> r == DbError::ConnectionError(t),
            user_error is None ==> (r matches DbError::Timeout(m) && m@ == "Redis operation timed out"@),
    {
        match user_error {
            Some(text) => DbError::ConnectionError(text),
            None => DbError::Timeout(String::from_str("Redis operation timed out")),
        }
    }

    /// The storage error for a failure to take a redis connection from the pool: a time-out,
    /// or a connection error with the text of the redis error that the pool reported.
    pub fn from_pool_error(err: &bb8_redis::bb8::RunError<bb8_redis::redis::RedisError>) -> (r: DbError)
        ensures
            pool_error_timed_out(*err) ==> (r matches DbError::Timeout(m) && m@ == "Redis operation timed out"@),
            !pool_error_timed_out(*err) ==> (exists|t: String|
                #[trigger] vstd::string::to_string_from_display_ensures::<bb8_redis::redis::RedisError>(
                    &pool_error_inner(*err),
                    t,
                ) && r == DbError::ConnectionError(t)),
    {
        let user_error = match pool_error_user(err) {
            Some(e) => {
                let text = e.to_string();
                assert(vstd::string::to_string_from_display_ensures::<bb8_redis::redis::RedisError>(e, text));
                Some(text)
            },
            None => None,
        };
        Self::from_pool_parts(user_error)
    }

    /// The storage error for a pool failure reported with the connection manager as its
    /// error type: a time-out, or else an error of the connection manager.
    pub fn from_manager_pool_parts(timed_out: bool) -> (r: DbError)
        ensures
            timed_out ==> (r matches DbError::Timeout(m) && m@ == "Redis connection timed out"@),
            !timed_out ==> (r matches DbError::ConnectionError(m)
                && m@ == "User error in Redis connection manager"@),
    {
        if timed_out {
            DbError::Timeout(String::from_str("Redis connection timed out"))
        } else {
            DbError::ConnectionError(String::from_str("User error in Redis connection manager"))
        }
    }

    /// The storage error for a pool failure reported with the connection manager as its
    /// error type: a time-out, or an error of the connection manager.
    pub fn from_manager_pool_error(
        err: &bb8_redis::bb8::RunError<bb8_redis::RedisConnectionManager>,
    ) -> (r: DbError)
        ensures
            manager_pool_error_is_timed_out(*err) ==> (r matches DbError::Timeout(m)
                && m@ == "Redis connection timed out"@),
            !manager_pool_error_is_timed_out(*err) ==> (r matches DbError::ConnectionError(m)
                && m@ == "User error in Redis connection manager"@),
    {
        Self::from_manager_pool_parts(manager_pool_error_timed_out(err))
    }

    /// An identifier that does not parse: unknown, with the error's text.
    pub fn from_uuid_error(err: &uuid::Error) -> (r: DbError)
        ensures
            r matches DbError::Unknown(m)
                && vstd::string::to_string_from_display_ensures::<uuid::Error>(err, m),
    {
        DbError::Unknown(err.to_string())
    }
}

/// Whether a storage error is the one that an answered error becomes: not found and no
/// content become not found with their message, every other error unknown with its text.
pub open spec fn is_db_error_of_app(err: AppError, r: DbError) -> bool {
    match err {
        AppError::NotFound(m) => r == DbError::NotFound(m),
        AppError::NoContent(m) => r == DbError::NotFound(m),
        _ => r matches DbError::Unknown(t) && t@ == app_error_text(err),
    }
}

impl DbError {
    /// The storage error for an answered error.
    pub fn from_app_error(err: AppError) -> (r: DbError)
        ensures
            is_db_error_of_app(err, r),
    {
        match err {
            AppError::NotFound(msg) => DbError::NotFound(msg),
            AppError::NoContent(msg) => DbError::NotFound(msg),
            _ => DbError::Unknown(err.to_string()),
        }
    }
}

/// Not found survives the way from the storage layer to the client and back, with its
/// message, in both directions; no content comes back as not found.
pub proof fn lemma_not_found_round_trip(m: String, r: DbError)
    ensures
        is_db_error_of_app(app_error_from_db(DbError::NotFound(m)), r) ==> r == DbError::NotFound(m),
        app_error_from_db(DbError::NotFound(m)) == AppError::NotFound(m),
        is_db_error_of_app(AppError::NotFound(m), r) ==> app_error_from_db(r) == AppError::NotFound(m),
        is_db_error_of_app(AppError::NoContent(m), r) ==> app_error_from_db(r) == AppError::NotFound(m),
{
}

} // verus!
