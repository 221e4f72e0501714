//! The service's configuration, computed from the values of its environment variables.

use vstd::prelude::*;

verus! {

/// Declares `lettre::Address`, an email address that lettre accepted.
#[verifier::external_type_specification]
#[verifier::external_body]
pub struct ExAddress(lettre::Address);

/// The values of the environment variables that the configuration reads; `None` where a
/// variable is not set.
#[derive(Debug, Clone)]
pub struct EnvValues {
    pub port: Option<String>,
    pub pg_url: Option<String>,
    pub redis_url: Option<String>,
    pub secret: Option<String>,
    pub sudo_secret: Option<String>,
    pub hash_secret: Option<String>,
    pub require_email_confirmation: Option<String>,
    pub enable_email_reset: Option<String>,
    pub email_sender_type: Option<String>,
    pub smtp_url: Option<String>,
    pub smtp_from_name: Option<String>,
    pub smtp_from_email: Option<String>,
}

/// How email is sent.
#[derive(Debug)]
pub enum EmailSenderConfig {
    /// Messages are only logged.
    Debug,
    /// Messages go to an SMTP server, from the given name and address.
    Smtp { smtp_url: String, from_name: Option<String>, from_email: lettre::Address },
}

/// The configuration of the service.
#[derive(Debug)]
pub struct AppConfig {
    /// Server
    pub port: u16,
    /// used for signing JWT tokens
    pub secret_key: String,
    /// used for signing sudo tokens
    pub sudo_secret_key: String,
    /// used for salting password hashes
    pub hash_secret: String,
    /// Database
    pub pg_url: String,
    pub redis_url: String,
    /// if true email confirmation is required after registration
    pub require_email_confirmation: bool,
    /// if true changing emails is enabled
    pub enable_email_reset: bool,
    /// Email sender
    pub email_sender: EmailSenderConfig,
}

/// Why no configuration could be made.
#[derive(Debug, Clone)]
pub enum ConfigError {
    /// A variable that must be set is not; its name.
    Missing(String),
    /// `EMAIL_SENDER_TYPE` names no known sender.
    UnknownEmailSender,
    /// `SMTP_FROM_EMAIL` is not an address that lettre accepts.
    InvalidFromEmail,
}

/// The decimal value of a string of ASCII digits.
pub open spec fn digits_value(s: Seq<char>) -> nat
    decreases s.len(),
{
    if s.len() == 0 {
        0
    } else {
        digits_value(s.drop_last()) * 10 + ((s.last() as nat) - ('0' as nat)) as nat
    }
}

/// Whether every character is an ASCII digit.
pub open spec fn all_digits(s: Seq<char>) -> bool {
    forall|i: int| 0 <= i < s.len() ==> '0' <= #[trigger] s[i] && s[i] <= '9'
}

/// What `str::parse::<u16>` returns, as its documentation states it: an optional `+`
/// followed by one or more decimal digits whose value fits in a `u16`; anything else
/// (a `-`, other characters, an empty string, a value too large) is an error.
pub open spec fn parsed_u16(s: Seq<char>) -> Option<u16> {
    let digits = if s.len() > 1 && s[0] == '+' {
        s.skip(1)
    } else {
        s
    };
    if digits.len() > 0 && all_digits(digits) && digits_value(digits) <= u16::MAX {
        Some(digits_value(digits) as u16)
    } else {
        None
    }
}

/// Calls `str::parse::<u16>`; the contract states what the function's documentation says.
#[verifier::external_body]
fn parse_u16(s: &String) -> (r: Option<u16>)
    ensures
        r == parsed_u16(s@),
{
    s.parse::<u16>().ok()
}

/// Whether lettre accepts the text as an email address.
pub uninterp spec fn is_lettre_address(text: Seq<char>) -> bool;

/// The address that lettre makes of an accepted text.
pub uninterp spec fn lettre_address_of(text: Seq<char>) -> lettre::Address;

/// Calls `<lettre::Address as FromStr>::from_str`. The result is named: whether the text is
/// accepted, and the address made of it, depend on the text alone.
#[verifier::external_body]
fn parse_address(text: &String) -> (r: Option<lettre::Address>)
    ensures
        r is Some == is_lettre_address(text@),
        r matches Some(a) ==> a == lettre_address_of(text@),
{
    text.parse::<lettre::Address>().ok()
}

/// The port: the parsed `PORT`, or 8000 where it is not set or does not parse.
pub open spec fn port_of(value: Option<String>) -> u16 {
    match value {
        Some(s) => match parsed_u16(s@) {
            Some(p) => p,
            None => 8000,
        },
        None => 8000,
    }
}

/// A feature flag: `false` exactly when the variable is set to `false` (what
/// `str::parse::<bool>` refuses, or no value, leaves the flag on).
pub open spec fn flag_of(value: Option<String>) -> bool {
    match value {
        Some(s) => s@ != "false"@,
        None => true,
    }
}

/// Computes the port from the value of `PORT`.
pub fn port_from(value: &Option<String>) -> (r: u16)
    ensures
        r == port_of(*value),
{
    match value {
        Some(s) => match parse_u16(s) {
            Some(p) => p,
            None => 8000,
        },
        None => 8000,
    }
}

/// Computes a feature flag from the value of its variable; what `str::parse::<bool>`
/// accepts is exactly `true` and `false`.
pub fn flag_from(value: &Option<String>) -> (r: bool)
    ensures
        r == flag_of(*value),
{
    match value {
        Some(s) => {
            let no = String::from_str("false");
            proof {
                reveal_strlit("false");
            }
            !(*s == no)
        },
        None => true,
    }
}

/// The name of a variable as an error.
fn missing(name: &str) -> (r: ConfigError)
    ensures
        r matches ConfigError::Missing(n) && n@ == name@,
{
    ConfigError::Missing(String::from_str(name))
}

/// The first variable, in the order in which they are read, that must be set and is not.
pub open spec fn first_missing(v: EnvValues) -> Option<Seq<char>> {
    if v.pg_url is None {
        Some("PG_URL"@)
    } else if v.redis_url is None {
        Some("REDIS_URL"@)
    } else if v.secret is None {
        Some("SECRET"@)
    } else if v.email_sender_type is None {
        Some("EMAIL_SENDER_TYPE"@)
    } else if v.email_sender_type.unwrap()@ == "smtp"@ && v.smtp_url is None {
        Some("SMTP_URL"@)
    } else if v.email_sender_type.unwrap()@ == "smtp"@ && v.smtp_from_email is None {
        Some("SMTP_FROM_EMAIL"@)
    } else {
        None
    }
}

/// The text of an optional value.
pub open spec fn text_of(v: Option<String>) -> Option<Seq<char>> {
    match v {
        Some(s) => Some(s@),
        None => None,
    }
}

/// The sender name: absent where `SMTP_FROM_NAME` is unset or empty.
pub open spec fn from_name_of(value: Option<String>) -> Option<Seq<char>> {
    match value {
        Some(s) => if s@.len() == 0 {
            None
        } else {
            Some(s@)
        },
        None => None,
    }
}

/// Whether the sender type is accepted and, for SMTP, the address is accepted too.
pub open spec fn sender_ok(v: EnvValues) -> bool {
    let t = v.email_sender_type.unwrap()@;
    t == "debug"@ || (t == "smtp"@ && is_lettre_address(v.smtp_from_email.unwrap()@))
}

impl AppConfig {
    /// The configuration for the given variable values. A missing required variable
    /// (`PG_URL`, `REDIS_URL`, `SECRET`, `EMAIL_SENDER_TYPE`, and for SMTP `SMTP_URL` and
    /// `SMTP_FROM_EMAIL`, in that order) is reported first; then a sender type other than
    /// `debug` or `smtp`, then an SMTP address that does not parse. Otherwise `PORT` and the
    /// flags are parsed with their defaults (8000, on), and the sudo and hash secrets default
    /// to the secret.
    pub fn from_env_values(v: EnvValues) -> (r: Result<AppConfig, ConfigError>)
        ensures
            first_missing(v) matches Some(name) ==> (r matches Err(ConfigError::Missing(n)) && n@ == name),
            first_missing(v) is None && !sender_ok(v) ==> (r matches Err(e) && !(e is Missing)),
            first_missing(v) is None && !sender_ok(v) && v.email_sender_type.unwrap()@ != "smtp"@
                ==> (r matches Err(e) && e is UnknownEmailSender),
            first_missing(v) is None && !sender_ok(v) && v.email_sender_type.unwrap()@ == "smtp"@
                ==> (r matches Err(e) && e is InvalidFromEmail),
            r is Ok <==> first_missing(v) is None && sender_ok(v),
            r matches Ok(c) ==> {
                &&& c.port == port_of(v.port)
                &&& text_of(Some(c.pg_url)) == text_of(v.pg_url)
                &&& text_of(Some(c.redis_url)) == text_of(v.redis_url)
                &&& text_of(Some(c.secret_key)) == text_of(v.secret)
                &&& c.sudo_secret_key@ == (if v.sudo_secret is Some { v.sudo_secret.unwrap()@ } else { v.secret.unwrap()@ })
                &&& c.hash_secret@ == (if v.hash_secret is Some { v.hash_secret.unwrap()@ } else { v.secret.unwrap()@ })
                &&& c.require_email_confirmation == flag_of(v.require_email_confirmation)
                &&& c.enable_email_reset == flag_of(v.enable_email_reset)
                &&& (v.email_sender_type.unwrap()@ == "debug"@ ==> c.email_sender is Debug)
                &&& (v.email_sender_type.unwrap()@ == "smtp"@ ==> (c.email_sender matches EmailSenderConfig::Smtp { smtp_url, from_name, from_email }
                    && smtp_url@ == v.smtp_url.unwrap()@
                    && text_of(from_name) == from_name_of(v.smtp_from_name)
                    && from_email == lettre_address_of(v.smtp_from_email.unwrap()@)))
            },
    {
        proof {
            reveal_strlit("debug");
            reveal_strlit("smtp");
            assert("debug"@.len() != "smtp"@.len());
        }
        let port = port_from(&v.port);
        let pg_url = match v.pg_url {
            Some(s) => s,
            None => return Err(missing("PG_URL")),
        };
        let redis_url = match v.redis_url {
            Some(s) => s,
            None => return Err(missing("REDIS_URL")),
        };
        let secret_key = match v.secret {
            Some(s) => s,
            None => return Err(missing("SECRET")),
        };
        let sudo_secret_key = match v.sudo_secret {
            Some(s) => s,
            None => secret_key.clone(),
        };
        let hash_secret = match v.hash_secret {
            Some(s) => s,
            None => secret_key.clone(),
        };
        let require_email_confirmation = flag_from(&v.require_email_confirmation);
        let enable_email_reset = flag_from(&v.enable_email_reset);
        let sender_type = match v.email_sender_type {
            Some(s) => s,
            None => return Err(missing("EMAIL_SENDER_TYPE")),
        };
        let debug = String::from_str("debug");
        let smtp = String::from_str("smtp");
        let email_sender = if sender_type == debug {
            EmailSenderConfig::Debug
        } else if sender_type == smtp {
            let smtp_url = match v.smtp_url {
                Some(s) => s,
                None => return Err(missing("SMTP_URL")),
            };
            let from_name = match v.smtp_from_name {
                Some(s) => if s.as_str().is_empty() {
                    None
                } else {
                    Some(s)
                },
                None => None,
            };
            let from_email_text = match v.smtp_from_email {
                Some(s) => s,
                None => return Err(missing("SMTP_FROM_EMAIL")),
            };
            let from_email = match parse_address(&from_email_text) {
                Some(a) => a,
                None => return Err(ConfigError::InvalidFromEmail),
            };
            EmailSenderConfig::Smtp { smtp_url, from_name, from_email }
        } else {
            return Err(ConfigError::UnknownEmailSender);
        };
        Ok(AppConfig {
            port,
            secret_key,
            sudo_secret_key,
            hash_secret,
            pg_url,
            redis_url,
            require_email_confirmation,
            enable_email_reset,
            email_sender,
        })
    }
}

} // verus!
