//! Field validation of incoming requests.
//!
//! The errors are those of the `validator` crate, held as plain values: a field's errors
//! carry a code and an optional message (the parameters that `validator` attaches are not
//! kept, since nothing here reads them), and the map from field to errors is a list of
//! entries in the order in which they are reported.

use vstd::prelude::*;

verus! {

/// One failed rule on one field.
#[derive(Debug, Clone)]
pub struct ValidationError {
    pub code: String,
    pub message: Option<String>,
}

/// What failed under one field name.
#[derive(Debug, Clone)]
pub enum ValidationErrorsKind {
    /// Errors of a nested struct.
    Struct,
    /// Errors of the elements of a nested list.
    List,
    /// Errors of the field itself.
    Field(Vec<ValidationError>),
}

/// The failed fields of one request, in the order in which they are reported.
#[derive(Debug, Clone)]
pub struct ValidationErrors(pub Vec<(String, ValidationErrorsKind)>);

/// A message as plain text, if there is one.
pub open spec fn message_text(m: Option<String>) -> Option<Seq<char>> {
    match m {
        Some(s) => Some(s@),
        None => None,
    }
}

impl ValidationError {
    /// The code and the message of the error, as plain text.
    pub open spec fn texts(self) -> (Seq<char>, Option<Seq<char>>) {
        (self.code@, message_text(self.message))
    }
}

/// The errors of a field as plain text.
pub open spec fn error_texts(errors: Seq<ValidationError>) -> Seq<(Seq<char>, Option<Seq<char>>)> {
    errors.map_values(|e: ValidationError| e.texts())
}

/// An entry as plain text: the field name, and its own errors if it has any.
pub open spec fn entry_texts(entry: (String, ValidationErrorsKind)) -> (Seq<char>, Option<Seq<(Seq<char>, Option<Seq<char>>)>>) {
    match entry.1 {
        ValidationErrorsKind::Field(v) => (entry.0@, Some(error_texts(v@))),
        _ => (entry.0@, None),
    }
}

impl ValidationErrors {
    /// The entries as plain text.
    pub open spec fn entries_texts(self) -> Seq<(Seq<char>, Option<Seq<(Seq<char>, Option<Seq<char>>)>>)> {
        self.0@.map_values(|e: (String, ValidationErrorsKind)| entry_texts(e))
    }
}

/// Whether the text is an email address by the HTML5 rule (with the length limits of
/// RFC 5321 and internationalised domains), as `validator` decides it.
pub uninterp spec fn is_valid_email(text: Seq<char>) -> bool;

/// Calls `validator::ValidateEmail::validate_email` on a string. The contract names its
/// result and states what the function's first check shows: text that is empty or holds
/// no `@` is refused.
#[verifier::external_body]
fn validate_email_text(text: &String) -> (r: bool)
    ensures
        r == is_valid_email(text@),
        text@.len() == 0 || !text@.contains('@') ==> !r,
{
    validator::ValidateEmail::validate_email(text)
}

/// Calls `validator::ValidateLength::validate_length` on a string with a lower and an upper
/// bound and no exact length. For strings the crate counts characters, so the result is
/// whether the number of characters lies within the bounds.
#[verifier::external_body]
fn validate_length_text(text: &String, min: u64, max: u64) -> (r: bool)
    ensures
        r == (min <= text@.len() && text@.len() <= max),
{
    validator::ValidateLength::validate_length(text, Some(min), Some(max), None)
}

/// The error that a failed built-in rule reports: its code and no message.
pub open spec fn rule_error(code: Seq<char>) -> (Seq<char>, Option<Seq<char>>) {
    (code, None)
}

/// A new error with the given code and no message.
pub fn new_error(code: &str) -> (r: ValidationError)
    ensures
        r.texts() == rule_error(code@),
{
    ValidationError { code: String::from_str(code), message: None }
}

/// The result of checking one field: no errors is success, else one entry for the field.
pub open spec fn field_outcome(
    field: Seq<char>,
    errors: Seq<(Seq<char>, Option<Seq<char>>)>,
) -> Result<(), Seq<(Seq<char>, Option<Seq<(Seq<char>, Option<Seq<char>>)>>)>> {
    if errors.len() == 0 {
        Ok(())
    } else {
        Err(seq![(field, Some(errors))])
    }
}

/// A validation result as plain text.
pub open spec fn outcome_texts(r: Result<(), ValidationErrors>) -> Result<(), Seq<(Seq<char>, Option<Seq<(Seq<char>, Option<Seq<char>>)>>)>> {
    match r {
        Ok(()) => Ok(()),
        Err(e) => Err(e.entries_texts()),
    }
}

/// Whether a validation outcome refuses the request with one entry, for `field`, whose
/// errors hold `error`.
pub open spec fn refused_with(
    outcome: Result<(), Seq<(Seq<char>, Option<Seq<(Seq<char>, Option<Seq<char>>)>>)>>,
    field: Seq<char>,
    error: (Seq<char>, Option<Seq<char>>),
) -> bool {
    match outcome {
        Ok(()) => false,
        Err(entries) => entries.len() == 1 && entries[0].0 == field && match entries[0].1 {
            Some(v) => v.contains(error),
            None => false,
        },
    }
}

/// Turns the errors found on one field into the result of validating the request.
pub fn field_result(field: &str, errors: Vec<ValidationError>) -> (r: Result<(), ValidationErrors>)
    ensures
        outcome_texts(r) == field_outcome(field@, error_texts(errors@)),
{
    if errors.len() == 0 {
        Ok(())
    } else {
        let entries = vec![(String::from_str(field), ValidationErrorsKind::Field(errors))];
        let r = ValidationErrors(entries);
        assert(r.entries_texts() =~= seq![(field@, Some(error_texts(errors@)))]);
        Err(r)
    }
}

/// The errors of an `email` rule on a field, given whether `validator` accepts the value.
pub open spec fn email_rule_errors(accepted: bool) -> Seq<(Seq<char>, Option<Seq<char>>)> {
    if accepted {
        seq![]
    } else {
        seq![rule_error("email"@)]
    }
}

/// Checks a field that carries an `email` rule, with `validator`'s email check.
pub fn validate_email_field(field: &str, value: &String) -> (r: Result<(), ValidationErrors>)
    ensures
        outcome_texts(r) == field_outcome(field@, email_rule_errors(is_valid_email(value@))),
{
    let accepted = validate_email_text(value);
    email_field_result(field, accepted)
}

/// What follows the email check: the result of validating the field, given whether the
/// value was accepted.
pub fn email_field_result(field: &str, accepted: bool) -> (r: Result<(), ValidationErrors>)
    ensures
        outcome_texts(r) == field_outcome(field@, email_rule_errors(accepted)),
{
    let mut errors: Vec<ValidationError> = Vec::new();
    if !accepted {
        errors.push(new_error("email"));
    }
    proof {
        reveal_strlit("email");
        assert(error_texts(errors@) =~= email_rule_errors(accepted));
    }
    field_result(field, errors)
}

/// The least number of characters of a password.
pub const PASSWORD_MIN_LENGTH: u64 = 8;

/// The greatest number of characters of a password.
pub const PASSWORD_MAX_LENGTH: u64 = 128;

/// The errors of a password field, given the outcome of the project's own password rule
/// (run first) and the number of characters of the password (`length(min = 8, max = 128)`).
pub open spec fn password_rule_errors(
    rule: Result<(), ValidationError>,
    length: nat,
) -> Seq<(Seq<char>, Option<Seq<char>>)> {
    let custom = match rule {
        Ok(()) => Seq::<(Seq<char>, Option<Seq<char>>)>::empty(),
        Err(e) => seq![e.texts()],
    };
    if PASSWORD_MIN_LENGTH <= length && length <= PASSWORD_MAX_LENGTH {
        custom
    } else {
        custom.push(rule_error("length"@))
    }
}

/// Checks a password field: the given outcome of the password rule, then the length rule.
pub fn validate_password_field(
    field: &str,
    value: &String,
    rule: Result<(), ValidationError>,
) -> (r: Result<(), ValidationErrors>)
    ensures
        outcome_texts(r) == field_outcome(field@, password_rule_errors(rule, value@.len())),
        rule matches Err(e) ==> refused_with(outcome_texts(r), field@, e.texts()),
        !(PASSWORD_MIN_LENGTH <= value@.len() <= PASSWORD_MAX_LENGTH) ==> refused_with(
            outcome_texts(r),
            field@,
            rule_error("length"@),
        ),
        (rule is Ok && PASSWORD_MIN_LENGTH <= value@.len() <= PASSWORD_MAX_LENGTH) ==> r is Ok,
{
    let ghost rule_copy = rule;
    let mut errors: Vec<ValidationError> = Vec::new();
    match rule {
        Ok(()) => {},
        Err(e) => {
            errors.push(e);
        },
    }
    let length_ok = validate_length_text(value, PASSWORD_MIN_LENGTH, PASSWORD_MAX_LENGTH);
    if !length_ok {
        errors.push(new_error("length"));
    }
    proof {
        reveal_strlit("length");
        assert(error_texts(errors@) =~= password_rule_errors(rule_copy, value@.len()));
        lemma_password_field_errors(field@, rule_copy, value@.len());
    }
    field_result(field, errors)
}

/// A password is refused whenever the project's password rule refuses it, whatever its
/// length, and the field's errors then hold that rule's error; it is refused with a
/// `length` error whenever it is shorter than 8 or longer than 128 characters, whatever
/// the rule said; and it is accepted only when the rule accepts it and the length is in
/// bounds. Every error is reported under the field itself.
pub proof fn lemma_password_field_errors(field: Seq<char>, rule: Result<(), ValidationError>, length: nat)
    ensures
        rule matches Err(e) ==> refused_with(
            field_outcome(field, password_rule_errors(rule, length)),
            field,
            e.texts(),
        ),
        !(PASSWORD_MIN_LENGTH <= length <= PASSWORD_MAX_LENGTH) ==> refused_with(
            field_outcome(field, password_rule_errors(rule, length)),
            field,
            rule_error("length"@),
        ),
        field_outcome(field, password_rule_errors(rule, length)) is Ok <==> (rule is Ok
            && PASSWORD_MIN_LENGTH <= length <= PASSWORD_MAX_LENGTH),
{
    let errs = password_rule_errors(rule, length);
    if let Err(e) = rule {
        assert(errs[0] == e.texts());
    }
    if !(PASSWORD_MIN_LENGTH <= length <= PASSWORD_MAX_LENGTH) {
        assert(errs[errs.len() - 1] == rule_error("length"@));
    }
}

} // verus!
