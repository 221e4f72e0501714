//! The error that every endpoint answers with, its text, its HTTP response, and the
//! mappings into it.

use vstd::prelude::*;

use crate::dto::validation::{
    entry_texts, error_texts, rule_error, ValidationError, ValidationErrors, ValidationErrorsKind,
};
use crate::dto::{
    api_error_texts, api_errors_equal, copy_api_errors, errors_view, ApiError, ApiErrorResponse,
};
use crate::common::prefixed;
use crate::errors::db_error::DbError;
use crate::errors::hash_error::HashError;

verus! {

/// Declares `jsonwebtoken::errors::Error` so that its values can be mapped.
#[verifier::external_type_specification]
#[verifier::external_body]
pub struct ExJwtError(jsonwebtoken::errors::Error);

/// Declares `bcrypt::BcryptError` so that its values can be mapped.
#[verifier::external_type_specification]
#[verifier::external_body]
pub struct ExBcryptError(bcrypt::BcryptError);

/// Declares `serde_json::Error` so that its values can be mapped.
#[verifier::external_type_specification]
#[verifier::external_body]
pub struct ExJsonError(serde_json::Error);

/// An error answered to a client. `Custom` carries a whole response and the number of its
/// HTTP status code. HTTP status codes run from 100 to 999, but nothing here restricts the
/// number; a number outside that range cannot be sent as a status, and the server then
/// answers 500.
#[derive(Debug)]
pub enum AppError {
    NoContent(String),
    /// Validation error, e.g. invalid input
    BadRequest(String),
    /// All with authentication
    Unauthorized(String),
    NotFound(String),
    InternalServerError(String),
    ExpiredAccessToken,
    Other(String),
    ValidationError(Vec<ApiError>),
    Custom((ApiErrorResponse, u16)),
}

// ---------------------------------------------------------------------------------------
// Equality
// ---------------------------------------------------------------------------------------

/// When two errors are equal: the same variant with the same contents, except that a
/// `Custom` error equals nothing, not even itself.
pub open spec fn app_errors_equal(a: AppError, b: AppError) -> bool {
    match (a, b) {
        (AppError::NoContent(x), AppError::NoContent(y)) => x@ == y@,
        (AppError::BadRequest(x), AppError::BadRequest(y)) => x@ == y@,
        (AppError::Unauthorized(x), AppError::Unauthorized(y)) => x@ == y@,
        (AppError::NotFound(x), AppError::NotFound(y)) => x@ == y@,
        (AppError::InternalServerError(x), AppError::InternalServerError(y)) => x@ == y@,
        (AppError::Other(x), AppError::Other(y)) => x@ == y@,
        (AppError::ValidationError(x), AppError::ValidationError(y)) => api_error_texts(x@)
            == api_error_texts(y@),
        (AppError::ExpiredAccessToken, AppError::ExpiredAccessToken) => true,
        _ => false,
    }
}

impl PartialEq for AppError {
    fn eq(&self, other: &Self) -> (r: bool) {
        match (self, other) {
            (AppError::NoContent(a), AppError::NoContent(b)) => *a == *b,
            (AppError::BadRequest(a), AppError::BadRequest(b)) => *a == *b,
            (AppError::Unauthorized(a), AppError::Unauthorized(b)) => *a == *b,
            (AppError::NotFound(a), AppError::NotFound(b)) => *a == *b,
            (AppError::InternalServerError(a), AppError::InternalServerError(b)) => *a == *b,
            (AppError::Other(a), AppError::Other(b)) => *a == *b,
            (AppError::ValidationError(a), AppError::ValidationError(b)) => api_errors_equal(a, b),
            (AppError::ExpiredAccessToken, AppError::ExpiredAccessToken) => true,
            _ => false,
        }
    }
}

impl vstd::std_specs::cmp::PartialEqSpecImpl for AppError {
    open spec fn obeys_eq_spec() -> bool {
        true
    }

    open spec fn eq_spec(&self, other: &Self) -> bool {
        app_errors_equal(*self, *other)
    }
}

/// Equality of errors is symmetric; it is reflexive on every error but `Custom`, and a
/// `Custom` error equals no error at all.
pub proof fn lemma_app_error_equality(a: AppError, b: AppError)
    ensures
        app_errors_equal(a, b) == app_errors_equal(b, a),
        !(a is Custom) ==> app_errors_equal(a, a),
        a is Custom ==> !app_errors_equal(a, b) && !app_errors_equal(b, a),
{
}

/// Two errors of the same variant that carries a message are equal exactly when their
/// messages are equal, whichever that variant is; two validation errors are equal exactly
/// when their field errors are; errors of different variants are never equal.
pub proof fn lemma_app_error_equality_by_contents(a: AppError, b: AppError)
    ensures
        (a, b) matches (AppError::NoContent(x), AppError::NoContent(y)) ==> (app_errors_equal(a, b) <==> x@ == y@),
        (a, b) matches (AppError::BadRequest(x), AppError::BadRequest(y)) ==> (app_errors_equal(a, b) <==> x@ == y@),
        (a, b) matches (AppError::Unauthorized(x), AppError::Unauthorized(y)) ==> (app_errors_equal(a, b) <==> x@ == y@),
        (a, b) matches (AppError::NotFound(x), AppError::NotFound(y)) ==> (app_errors_equal(a, b) <==> x@ == y@),
        (a, b) matches (AppError::InternalServerError(x), AppError::InternalServerError(y)) ==> (app_errors_equal(a, b) <==> x@ == y@),
        (a, b) matches (AppError::Other(x), AppError::Other(y)) ==> (app_errors_equal(a, b) <==> x@ == y@),
        (a, b) matches (AppError::ValidationError(x), AppError::ValidationError(y)) ==> (app_errors_equal(a, b)
            <==> api_error_texts(x@) == api_error_texts(y@)),
        (a is ExpiredAccessToken && b is ExpiredAccessToken) ==> app_errors_equal(a, b),
        app_errors_equal(a, b) ==> variant_index(a) == variant_index(b),
{
}

/// The position of an error's variant in the enum.
pub open spec fn variant_index(e: AppError) -> int {
    match e {
        AppError::NoContent(_) => 0,
        AppError::BadRequest(_) => 1,
        AppError::Unauthorized(_) => 2,
        AppError::NotFound(_) => 3,
        AppError::InternalServerError(_) => 4,
        AppError::ExpiredAccessToken => 5,
        AppError::Other(_) => 6,
        AppError::ValidationError(_) => 7,
        AppError::Custom(_) => 8,
    }
}

// ---------------------------------------------------------------------------------------
// Text
// ---------------------------------------------------------------------------------------

/// The `Debug` rendering of a list of field errors, as `std`'s formatting writes it.
pub uninterp spec fn debug_text_of_api_errors(errors: Seq<(Seq<char>, Seq<char>)>) -> Seq<char>;

/// The `Debug` rendering of a pair of an error response and a status code, as `std`'s
/// formatting writes it.
pub uninterp spec fn debug_text_of_custom(
    status: Seq<char>,
    message: Seq<char>,
    errors: Option<Seq<(Seq<char>, Seq<char>)>>,
    code: u16,
) -> Seq<char>;

/// Writes a list of field errors with `std`'s `format!("{:?}", ..)`. The result is named:
/// it depends on the texts of the errors alone.
#[verifier::external_body]
fn api_errors_debug_text(errors: &Vec<ApiError>) -> (r: String)
    ensures
        r@ == debug_text_of_api_errors(api_error_texts(errors@)),
{
    format!("{:?}", errors)
}

/// The texts of the optional error list of a response.
pub open spec fn optional_error_texts(errors: Option<Seq<ApiError>>) -> Option<Seq<(Seq<char>, Seq<char>)>> {
    match errors {
        Some(v) => Some(api_error_texts(v)),
        None => None,
    }
}

/// Writes the pair of a response and a status code with `std`'s `format!("{:?}", ..)`. The
/// result is named: it depends on the texts of the response and on the code alone (the
/// status code type of the HTTP crate writes itself as its number).
#[verifier::external_body]
fn custom_debug_text(response: &ApiErrorResponse, code: u16) -> (r: String)
    ensures
        r@ == debug_text_of_custom(
            response.status@,
            response.message@,
            optional_error_texts(errors_view(response.errors)),
            code,
        ),
{
    format!("{:?}", (response, code))
}

/// The text of an error (what its `Display` writes).
pub open spec fn app_error_text(e: AppError) -> Seq<char> {
    match e {
        AppError::NoContent(m) => "No Content: "@ + m@,
        AppError::BadRequest(m) => "Bad Request: "@ + m@,
        AppError::Unauthorized(m) => "Unauthorized: "@ + m@,
        AppError::NotFound(m) => "Not Found: "@ + m@,
        AppError::InternalServerError(m) => "Internal Server Error: "@ + m@,
        AppError::Other(m) => "Other Error: "@ + m@,
        AppError::ValidationError(v) => "Validation Errors: "@ + debug_text_of_api_errors(
            api_error_texts(v@),
        ),
        AppError::ExpiredAccessToken => "Access Token expired"@,
        AppError::Custom(c) => debug_text_of_custom(
            c.0.status@,
            c.0.message@,
            optional_error_texts(errors_view(c.0.errors)),
            c.1,
        ),
    }
}

impl AppError {
    /// The text of the error.
    pub fn to_string(&self) -> (r: String)
        ensures
            r@ == app_error_text(*self),
    {
        match self {
            AppError::NoContent(m) => prefixed("No Content: ", m),
            AppError::BadRequest(m) => prefixed("Bad Request: ", m),
            AppError::Unauthorized(m) => prefixed("Unauthorized: ", m),
            AppError::NotFound(m) => prefixed("Not Found: ", m),
            AppError::InternalServerError(m) => prefixed("Internal Server Error: ", m),
            AppError::Other(m) => prefixed("Other Error: ", m),
            AppError::ValidationError(v) => {
                let text = api_errors_debug_text(v);
                prefixed("Validation Errors: ", &text)
            },
            AppError::ExpiredAccessToken => String::from_str("Access Token expired"),
            AppError::Custom(c) => custom_debug_text(&c.0, c.1),
        }
    }
}

// ---------------------------------------------------------------------------------------
// HTTP response
// ---------------------------------------------------------------------------------------

/// The HTTP status code that an error is answered with.
pub open spec fn status_code_of(e: AppError) -> u16 {
    match e {
        AppError::NoContent(_) => 404,
        AppError::BadRequest(_) => 400,
        AppError::Unauthorized(_) => 401,
        AppError::NotFound(_) => 404,
        AppError::InternalServerError(_) => 500,
        AppError::Other(_) => 500,
        AppError::ValidationError(_) => 400,
        AppError::ExpiredAccessToken => 401,
        AppError::Custom(c) => c.1,
    }
}

/// The message of the body that an error is answered with.
pub open spec fn response_message_of(e: AppError) -> Seq<char> {
    match e {
        AppError::NoContent(m) => m@,
        AppError::BadRequest(m) => m@,
        AppError::Unauthorized(m) => m@,
        AppError::NotFound(m) => m@,
        AppError::InternalServerError(m) => m@,
        AppError::Other(m) => m@,
        AppError::ValidationError(_) => "Validation error"@,
        AppError::ExpiredAccessToken => "Access token has expired"@,
        AppError::Custom(c) => c.0.message@,
    }
}

/// The status text of the body that an error is answered with.
pub open spec fn response_status_of(e: AppError) -> Seq<char> {
    match e {
        AppError::Custom(c) => c.0.status@,
        _ => "error"@,
    }
}

/// The field errors of the body that an error is answered with.
pub open spec fn response_errors_of(e: AppError) -> Option<Seq<(Seq<char>, Seq<char>)>> {
    match e {
        AppError::ValidationError(v) => Some(api_error_texts(v@)),
        AppError::Custom(c) => optional_error_texts(errors_view(c.0.errors)),
        _ => Some(Seq::empty()),
    }
}

/// Every error but `Custom` is answered with the status text "error", whatever its
/// variant; a `Custom` error is answered with the status text of its own body.
pub proof fn lemma_response_status_is_error(e: AppError)
    ensures
        !(e is Custom) ==> response_status_of(e) == "error"@,
        e matches AppError::Custom(c) ==> response_status_of(e) == c.0.status@,
{
}

/// An error that carries a message is answered with that message and no field errors; a
/// validation error is answered with its field errors as they are; an error of the client
/// gets a 4xx code and one of the server a 5xx code: 400 for a bad or invalid request, 401
/// for any failure of authentication, 404 for what is not there, 500 for the rest.
pub proof fn lemma_response_carries_the_error(e: AppError)
    ensures
        e matches AppError::NoContent(m) ==> response_message_of(e) == m@ && status_code_of(e) == 404,
        e matches AppError::BadRequest(m) ==> response_message_of(e) == m@ && status_code_of(e) == 400,
        e matches AppError::Unauthorized(m) ==> response_message_of(e) == m@ && status_code_of(e) == 401,
        e matches AppError::NotFound(m) ==> response_message_of(e) == m@ && status_code_of(e) == 404,
        e matches AppError::InternalServerError(m) ==> response_message_of(e) == m@ && status_code_of(e) == 500,
        e matches AppError::Other(m) ==> response_message_of(e) == m@ && status_code_of(e) == 500,
        e is ExpiredAccessToken ==> status_code_of(e) == 401,
        e matches AppError::ValidationError(v) ==> response_errors_of(e) == Some(api_error_texts(v@))
            && status_code_of(e) == 400,
        !(e is ValidationError) && !(e is Custom) ==> response_errors_of(e) == Some(
            Seq::<(Seq<char>, Seq<char>)>::empty(),
        ),
{
}

impl AppError {
    /// The HTTP status code and the body that the error is answered with.
    pub fn error_response(&self) -> (r: (u16, ApiErrorResponse))
        ensures
            r.0 == status_code_of(*self),
            r.1.status@ == response_status_of(*self),
            !(*self is Custom) ==> r.1.status@ == "error"@,
            r.1.message@ == response_message_of(*self),
            optional_error_texts(errors_view(r.1.errors)) == response_errors_of(*self),
    {
        let mut body = ApiErrorResponse {
            status: String::from_str("error"),
            message: String::new(),
            errors: Some(Vec::new()),
        };
        proof {
            reveal_strlit("error");
            assert(api_error_texts(Seq::<ApiError>::empty()) =~= Seq::empty());
        }
        match self {
            AppError::NoContent(err) => {
                body.message = err.clone();
                (404, body)
            },
            AppError::BadRequest(err) => {
                body.message = err.clone();
                (400, body)
            },
            AppError::Unauthorized(err) => {
                body.message = err.clone();
                (401, body)
            },
            AppError::NotFound(err) => {
                body.message = err.clone();
                (404, body)
            },
            AppError::InternalServerError(err) => {
                body.message = err.clone();
                (500, body)
            },
            AppError::Other(err) => {
                body.message = err.clone();
                (500, body)
            },
            AppError::ValidationError(errs) => {
                body.errors = Some(copy_api_errors(errs));
                body.message = String::from_str("Validation error");
                (400, body)
            },
            AppError::ExpiredAccessToken => {
                body.message = String::from_str("Access token has expired");
                (401, body)
            },
            AppError::Custom(err) => {
                let copy = err.0.duplicate();
                (err.1, copy)
            },
        }
    }
}

// ---------------------------------------------------------------------------------------
// Mappings into AppError
// ---------------------------------------------------------------------------------------

/// The kinds of `jsonwebtoken` errors that are told apart.
#[derive(Debug, Clone, Copy, PartialEq, Eq, Structural)]
pub enum JwtErrorKind {
    InvalidToken,
    InvalidIssuer,
    ExpiredSignature,
    Other,
}

/// The kind of a `jsonwebtoken` error, as far as the mapping tells kinds apart.
pub uninterp spec fn jwt_kind_of(err: jsonwebtoken::errors::Error) -> JwtErrorKind;

/// Tells the kind of a `jsonwebtoken::errors::Error` (`Error::kind`), one arm for each of
/// the kinds told apart and one for all others.
#[verifier::external_body]
fn jwt_error_kind(err: &jsonwebtoken::errors::Error) -> (r: JwtErrorKind)
    ensures
        r == jwt_kind_of(*err),
{
    match err.kind() {
        jsonwebtoken::errors::ErrorKind::InvalidToken => JwtErrorKind::InvalidToken,
        jsonwebtoken::errors::ErrorKind::InvalidIssuer => JwtErrorKind::InvalidIssuer,
        jsonwebtoken::errors::ErrorKind::ExpiredSignature => JwtErrorKind::ExpiredSignature,
        _ => JwtErrorKind::Other,
    }
}

/// Whether an error is the one that a token error of the given kind and text becomes.
pub open spec fn is_jwt_mapping(kind: JwtErrorKind, text: String, r: AppError) -> bool {
    match kind {
        JwtErrorKind::InvalidToken => r matches AppError::Unauthorized(m) && m@ == "Invalid token"@,
        JwtErrorKind::InvalidIssuer => r matches AppError::Unauthorized(m) && m@ == "Invalid issuer"@,
        JwtErrorKind::ExpiredSignature => r is ExpiredAccessToken,
        JwtErrorKind::Other => r == AppError::InternalServerError(text),
    }
}

/// The flattening of a list of validation entries into field errors: for each field with
/// errors of its own, in order, each error that carries a message, in order.
pub open spec fn messages_of(field: Seq<char>, errors: Seq<ValidationError>) -> Seq<(Seq<char>, Seq<char>)>
    decreases errors.len(),
{
    if errors.len() == 0 {
        Seq::empty()
    } else {
        let rest = messages_of(field, errors.drop_last());
        match errors.last().message {
            Some(m) => rest.push((field, m@)),
            None => rest,
        }
    }
}

/// The field errors that one entry contributes.
pub open spec fn entry_messages(entry: (String, ValidationErrorsKind)) -> Seq<(Seq<char>, Seq<char>)> {
    match entry.1 {
        ValidationErrorsKind::Field(v) => messages_of(entry.0@, v@),
        _ => Seq::empty(),
    }
}

/// The field errors that a list of entries contributes, in order.
pub open spec fn validation_messages(entries: Seq<(String, ValidationErrorsKind)>) -> Seq<(Seq<char>, Seq<char>)>
    decreases entries.len(),
{
    if entries.len() == 0 {
        Seq::empty()
    } else {
        validation_messages(entries.drop_last()) + entry_messages(entries.last())
    }
}

/// Appends the errors of one field that carry a message.
fn push_messages(out: &mut Vec<ApiError>, field: &String, errors: &Vec<ValidationError>)
    ensures
        api_error_texts(final(out)@) == api_error_texts(old(out)@) + messages_of(field@, errors@),
{
    let ghost start = api_error_texts(out@);
    let mut j: usize = 0;
    while j < errors.len()
        invariant
            j <= errors.len(),
            api_error_texts(out@) == start + messages_of(field@, errors@.take(j as int)),
        decreases errors.len() - j,
    {
        assert(errors@.take(j as int + 1).drop_last() =~= errors@.take(j as int));
        match &errors[j].message {
            Some(m) => {
                let ghost before = out@;
                out.push(ApiError { field: field.clone(), message: m.clone() });
                assert(api_error_texts(out@) =~= api_error_texts(before).push((field@, m@)));
            },
            None => {},
        }
        j += 1;
    }
    assert(errors@.take(errors.len() as int) =~= errors@);
}

impl AppError {
    /// A token error: an invalid token or issuer is unauthorized, an expired signature is an
    /// expired access token, and every other error is an internal error with its text.
    pub fn from_jwt_parts(kind: JwtErrorKind, text: String) -> (r: AppError)
        ensures
            is_jwt_mapping(kind, text, r),
    {
        match kind {
            JwtErrorKind::InvalidToken => AppError::Unauthorized(String::from_str("Invalid token")),
            JwtErrorKind::InvalidIssuer => AppError::Unauthorized(String::from_str("Invalid issuer")),
            JwtErrorKind::ExpiredSignature => AppError::ExpiredAccessToken,
            JwtErrorKind::Other => AppError::InternalServerError(text),
        }
    }

    /// The error for a `jsonwebtoken` error, by its kind, with the error's text.
    pub fn from_jwt_error(err: &jsonwebtoken::errors::Error) -> (r: AppError)
        ensures
            exists|text: String|
                vstd::string::to_string_from_display_ensures::<jsonwebtoken::errors::Error>(err, text)
                && #[trigger] is_jwt_mapping(jwt_kind_of(*err), text, r),
    {
        let kind = jwt_error_kind(err);
        let text = err.to_string();
        let r = Self::from_jwt_parts(kind, text);
        assert(is_jwt_mapping(kind, text, r));
        r
    }

    /// A hashing failure of `bcrypt`: an internal error with its text.
    pub fn from_bcrypt_error(err: &bcrypt::BcryptError) -> (r: AppError)
        ensures
            r matches AppError::InternalServerError(m)
                && vstd::string::to_string_from_display_ensures::<bcrypt::BcryptError>(err, m),
    {
        AppError::InternalServerError(err.to_string())
    }

    /// A JSON failure of `serde_json`: an internal error with its text.
    pub fn from_json_error(err: &serde_json::Error) -> (r: AppError)
        ensures
            r matches AppError::InternalServerError(m)
                && vstd::string::to_string_from_display_ensures::<serde_json::Error>(err, m),
    {
        AppError::InternalServerError(err.to_string())
    }

    /// Failed request validation: a validation error that lists, for each failed field in
    /// order, those of its errors that carry a message, in order.
    pub fn from_validation_errors(errs: ValidationErrors) -> (r: AppError)
        ensures
            r matches AppError::ValidationError(v) && api_error_texts(v@) == validation_messages(errs.0@),
    {
        let entries = &errs.0;
        let mut out: Vec<ApiError> = Vec::new();
        let mut i: usize = 0;
        while i < entries.len()
            invariant
                i <= entries.len(),
                api_error_texts(out@) == validation_messages(entries@.take(i as int)),
            decreases entries.len() - i,
        {
            assert(entries@.take(i as int + 1).drop_last() =~= entries@.take(i as int));
            let (field, kind) = &entries[i];
            match kind {
                ValidationErrorsKind::Field(messages) => {
                    push_messages(&mut out, field, messages);
                },
                _ => {
                    assert(entry_messages(entries@[i as int]) =~= Seq::empty());
                },
            }
            i += 1;
        }
        assert(entries@.take(entries.len() as int) =~= entries@);
        AppError::ValidationError(out)
    }
}

/// Errors that carry no message contribute no field error.
proof fn lemma_unmessaged_errors_vanish(field: Seq<char>, errors: Seq<ValidationError>)
    requires
        forall|k: int| 0 <= k < errors.len() ==> (#[trigger] errors[k]).message is None,
    ensures
        messages_of(field, errors) == Seq::<(Seq<char>, Seq<char>)>::empty(),
    decreases errors.len(),
{
    if errors.len() > 0 {
        lemma_unmessaged_errors_vanish(field, errors.drop_last());
        assert(errors.last().message is None);
    }
}

/// A request that fails only rules of `validator` itself (whose errors carry a code and no
/// message) is answered with a validation error that lists no field error.
pub proof fn lemma_rule_failures_list_no_field_errors(e: ValidationErrors, field: Seq<char>, codes: Seq<Seq<char>>)
    requires
        e.entries_texts() == seq![(field, Some(codes.map_values(|c: Seq<char>| rule_error(c))))],
    ensures
        validation_messages(e.0@) == Seq::<(Seq<char>, Seq<char>)>::empty(),
{
    let entries = e.0@;
    assert(e.entries_texts().len() == 1);
    assert(entries.len() == 1);
    assert(entry_texts(entries[0]) == e.entries_texts()[0]);
    match entries[0].1 {
        ValidationErrorsKind::Field(v) => {
            let rules = codes.map_values(|c: Seq<char>| rule_error(c));
            assert(entry_texts(entries[0]).1 == Some(error_texts(v@)));
            assert(error_texts(v@) == rules);
            assert(error_texts(v@).len() == v@.len());
            assert(rules.len() == codes.len());
            assert forall|k: int| 0 <= k < v@.len() implies (#[trigger] v@[k]).message is None by {
                assert(error_texts(v@)[k] == v@[k].texts());
                assert(codes.map_values(|c: Seq<char>| rule_error(c))[k] == rule_error(codes[k]));
            }
            lemma_unmessaged_errors_vanish(entries[0].0@, v@);
        },
        _ => {},
    }
    assert(entries.drop_last() =~= Seq::<(String, ValidationErrorsKind)>::empty());
    assert(entries.last() == entries[0]);
    assert(validation_messages(entries.drop_last()) =~= Seq::empty());
    assert(entry_messages(entries.last()) =~= Seq::empty());
    assert(validation_messages(entries) =~= validation_messages(entries.drop_last()) + entry_messages(entries.last()));
}

/// The error a storage error is answered with.
pub open spec fn app_error_from_db(err: DbError) -> AppError {
    match err {
        DbError::NotFound(m) => AppError::NotFound(m),
        DbError::ConnectionError(m) => AppError::InternalServerError(m),
        DbError::Timeout(m) => AppError::InternalServerError(m),
        DbError::FromDatabase(m) => AppError::BadRequest(m),
        DbError::Unknown(m) => AppError::InternalServerError(m),
        DbError::QueryError(m) => AppError::InternalServerError(m),
    }
}

impl From<DbError> for AppError {
    fn from(err: DbError) -> (r: AppError) {
        match err {
            DbError::NotFound(msg) => AppError::NotFound(msg),
            DbError::ConnectionError(msg) => AppError::InternalServerError(msg),
            DbError::Timeout(msg) => AppError::InternalServerError(msg),
            DbError::FromDatabase(msg) => AppError::BadRequest(msg),
            DbError::Unknown(msg) => AppError::InternalServerError(msg),
            DbError::QueryError(msg) => AppError::InternalServerError(msg),
        }
    }
}

impl vstd::std_specs::convert::FromSpecImpl<DbError> for AppError {
    open spec fn obeys_from_spec() -> bool {
        true
    }

    open spec fn from_spec(v: DbError) -> AppError {
        app_error_from_db(v)
    }
}

/// The error a hashing error is answered with.
pub open spec fn app_error_from_hash(err: HashError) -> AppError {
    match err {
        HashError::InvalidHash(m) => AppError::BadRequest(m),
        HashError::HashingFailed(m) => AppError::InternalServerError(m),
        HashError::Other(m) => AppError::InternalServerError(m),
    }
}

impl From<HashError> for AppError {
    fn from(err: HashError) -> (r: AppError) {
        match err {
            HashError::InvalidHash(msg) => AppError::BadRequest(msg),
            HashError::HashingFailed(msg) => AppError::InternalServerError(msg),
            HashError::Other(msg) => AppError::InternalServerError(msg),
        }
    }
}

impl vstd::std_specs::convert::FromSpecImpl<HashError> for AppError {
    open spec fn obeys_from_spec() -> bool {
        true
    }

    open spec fn from_spec(v: HashError) -> AppError {
        app_error_from_hash(v)
    }
}

} // verus!
