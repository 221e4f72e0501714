//! The computations of the storage layer: how records are keyed in the key-value store,
//! how long they live, how stored records change, and which outcomes of a write are
//! errors. Reading and writing the stores is done by the callers.

use vstd::prelude::*;

use crate::errors::db_error::DbError;
use crate::models::auth::email_verification::EMAIL_VERIFICATION_PREFIX;
use crate::models::auth::password_reset::PASSWORD_RESET_PREFIX;
use crate::models::auth::reset_auth::RESET_AUTH_PREFIX;
use crate::models::auth::signin::SIGNIN_SESSION_PREFIX;
use crate::models::auth::signup::SIGNUP_SESSION_PREFIX;
use crate::models::auth::tokens::TOKEN_SESSION_PREFIX;

pub mod auth;

verus! {

/// The key under which a record with the given identifier is kept in a store with the
/// given prefix: the prefix, a colon, and the identifier.
pub open spec fn store_key(prefix: Seq<char>, id: Seq<char>) -> Seq<char> {
    prefix + ":"@ + id
}

/// Whether a text holds no colon.
pub open spec fn colon_free(s: Seq<char>) -> bool {
    !s.contains(':')
}

/// Builds the key of a record: `"{prefix}:{id}"`.
pub fn redis_key(prefix: &str, id: &str) -> (r: String)
    ensures
        r@ == store_key(prefix@, id@),
{
    let mut key = String::from_str(prefix);
    key.append(":");
    key.append(id);
    key
}

/// Within stores whose prefixes hold no colon, a key names exactly one store and one
/// record: two keys are equal only when their prefixes and their identifiers are.
pub proof fn lemma_store_key_injective(p1: Seq<char>, i1: Seq<char>, p2: Seq<char>, i2: Seq<char>)
    requires
        colon_free(p1),
        colon_free(p2),
        store_key(p1, i1) == store_key(p2, i2),
    ensures
        p1 == p2,
        i1 == i2,
{
    reveal_strlit(":");
    let k1 = store_key(p1, i1);
    let k2 = store_key(p2, i2);
    assert(k1[p1.len() as int] == ':');
    assert(k2[p2.len() as int] == ':');
    if p1.len() < p2.len() {
        assert(k2[p1.len() as int] == p2[p1.len() as int]);
        assert(p2.contains(p2[p1.len() as int]));
        assert(false);
    }
    if p2.len() < p1.len() {
        assert(k1[p2.len() as int] == p1[p2.len() as int]);
        assert(p1.contains(p1[p2.len() as int]));
        assert(false);
    }
    assert(p1 =~= k1.subrange(0, p1.len() as int));
    assert(p2 =~= k2.subrange(0, p2.len() as int));
    assert(i1 =~= k1.subrange(p1.len() as int + 1, k1.len() as int));
    assert(i2 =~= k2.subrange(p2.len() as int + 1, k2.len() as int));
}

/// Whether `uuid` accepts the text as an identifier.
pub uninterp spec fn is_uuid_text(text: Seq<char>) -> bool;

/// The identifier that `uuid` reads from an accepted text.
pub uninterp spec fn uuid_of_text(text: Seq<char>) -> uuid::Uuid;

/// The error that `uuid` reports for a refused text.
pub uninterp spec fn uuid_error_of_text(text: Seq<char>) -> uuid::Error;

/// Calls `uuid::Uuid::parse_str` (the `sqlx::types::Uuid` the stores use). The result is
/// named: it depends on the text alone.
#[verifier::external_body]
fn uuid_parse_str(s: &str) -> (r: Result<uuid::Uuid, uuid::Error>)
    ensures
        r is Ok == is_uuid_text(s@),
        r matches Ok(u) ==> u == uuid_of_text(s@),
        r matches Err(e) ==> e == uuid_error_of_text(s@),
{
    uuid::Uuid::parse_str(s)
}

/// Reads the identifier of a stored row from its text; a text that is no identifier is an
/// unknown storage error with the text of `uuid`'s error.
pub fn parse_id(id: &str) -> (r: Result<uuid::Uuid, DbError>)
    ensures
        r is Ok == is_uuid_text(id@),
        r matches Ok(u) ==> u == uuid_of_text(id@),
        r matches Err(e) ==> (e matches DbError::Unknown(m)
            && vstd::string::to_string_from_display_ensures::<uuid::Error>(&uuid_error_of_text(id@), m)),
{
    match uuid_parse_str(id) {
        Ok(u) => Ok(u),
        Err(e) => Err(DbError::from_uuid_error(&e)),
    }
}

/// The prefixes of the six key-value stores.
pub open spec fn store_prefixes() -> Seq<Seq<char>> {
    seq![
        EMAIL_VERIFICATION_PREFIX@,
        PASSWORD_RESET_PREFIX@,
        RESET_AUTH_PREFIX@,
        SIGNIN_SESSION_PREFIX@,
        SIGNUP_SESSION_PREFIX@,
        TOKEN_SESSION_PREFIX@,
    ]
}

/// A text of ASCII letters and underscores holds no colon.
proof fn lemma_word_is_colon_free(s: Seq<char>)
    requires
        forall|i: int| 0 <= i < s.len() ==> (('a' <= #[trigger] s[i] && s[i] <= 'z') || s[i] == '_'),
    ensures
        colon_free(s),
{
    if s.contains(':') {
        let i = choose|i: int| 0 <= i < s.len() && s[i] == ':';
        assert(('a' <= s[i] && s[i] <= 'z') || s[i] == '_');
    }
}

/// Records of different stores never share a key: the store prefixes are different and
/// hold no colon, so a key names its store and its record.
pub proof fn lemma_stores_never_share_keys(i: int, j: int, id1: Seq<char>, id2: Seq<char>)
    requires
        0 <= i < 6,
        0 <= j < 6,
        i != j,
    ensures
        store_key(store_prefixes()[i], id1) != store_key(store_prefixes()[j], id2),
{
    reveal_strlit("email_verification");
    reveal_strlit("password_reset");
    reveal_strlit("reset_auth");
    reveal_strlit("signin");
    reveal_strlit("signup");
    reveal_strlit("session");
    let ps = store_prefixes();
    assert(ps[0] == "email_verification"@);
    assert(ps[1] == "password_reset"@);
    assert(ps[2] == "reset_auth"@);
    assert(ps[3] == "signin"@);
    assert(ps[4] == "signup"@);
    assert(ps[5] == "session"@);
    lemma_word_is_colon_free(ps[i]);
    lemma_word_is_colon_free(ps[j]);
    // distinct by length, or by their fifth character
    assert(ps[0].len() == 18 && ps[1].len() == 14 && ps[2].len() == 10);
    assert(ps[3].len() == 6 && ps[4].len() == 6 && ps[5].len() == 7);
    assert(ps[3][5] == 'n' && ps[4][5] == 'p');
    assert(ps[i] != ps[j]);
    if store_key(ps[i], id1) == store_key(ps[j], id2) {
        lemma_store_key_injective(ps[i], id1, ps[j], id2);
    }
}

} // verus!
