//! Response envelopes shared by every endpoint.

use vstd::prelude::*;

pub mod auth;
pub mod validation;

verus! {

/// The envelope of a successful answer.
#[derive(Debug)]
pub struct ApiResponse<T> {
    pub status: String,
    pub message: String,
    pub data: Option<T>,
}

/// The envelope of a failed answer.
#[derive(Debug, Clone)]
pub struct ApiErrorResponse {
    pub status: String,
    pub message: String,
    pub errors: Option<Vec<ApiError>>,
}

/// One field-level error reported to the client.
#[derive(Debug, Clone)]
pub struct ApiError {
    pub field: String,
    pub message: String,
}

impl ApiError {
    /// The pair of texts that identifies an error: two errors are equal when these are.
    pub open spec fn texts(self) -> (Seq<char>, Seq<char>) {
        (self.field@, self.message@)
    }

    /// A field-by-field copy.
    pub fn duplicate(&self) -> (r: ApiError)
        ensures
            r == *self,
    {
        ApiError { field: self.field.clone(), message: self.message.clone() }
    }
}

impl PartialEq for ApiError {
    fn eq(&self, other: &Self) -> (r: bool) {
        self.field == other.field && self.message == other.message
    }
}

impl vstd::std_specs::cmp::PartialEqSpecImpl for ApiError {
    open spec fn obeys_eq_spec() -> bool {
        true
    }

    open spec fn eq_spec(&self, other: &Self) -> bool {
        self.texts() == other.texts()
    }
}

/// The texts of a list of errors, in order.
pub open spec fn api_error_texts(errors: Seq<ApiError>) -> Seq<(Seq<char>, Seq<char>)> {
    errors.map_values(|e: ApiError| e.texts())
}

/// Whether two lists of errors are equal element by element (what `==` on `Vec<ApiError>` computes).
pub fn api_errors_equal(a: &Vec<ApiError>, b: &Vec<ApiError>) -> (r: bool)
    ensures
        r == (api_error_texts(a@) == api_error_texts(b@)),
{
    if a.len() != b.len() {
        assert(api_error_texts(a@).len() != api_error_texts(b@).len());
        return false;
    }
    let mut i: usize = 0;
    while i < a.len()
        invariant
            a.len() == b.len(),
            i <= a.len(),
            forall|j: int| 0 <= j < i ==> #[trigger] a@[j].texts() == b@[j].texts(),
        decreases a.len() - i,
    {
        if !(a[i] == b[i]) {
            assert(api_error_texts(a@)[i as int] != api_error_texts(b@)[i as int]);
            return false;
        }
        i += 1;
    }
    assert(api_error_texts(a@) =~= api_error_texts(b@));
    true
}

/// An element-by-element copy of a list of errors.
pub fn copy_api_errors(v: &Vec<ApiError>) -> (r: Vec<ApiError>)
    ensures
        r@ == v@,
{
    let mut out: Vec<ApiError> = Vec::new();
    let mut i: usize = 0;
    while i < v.len()
        invariant
            i <= v.len(),
            out@ == v@.subrange(0, i as int),
        decreases v.len() - i,
    {
        out.push(v[i].duplicate());
        i += 1;
        assert(out@ =~= v@.subrange(0, i as int));
    }
    assert(v@.subrange(0, v.len() as int) =~= v@);
    out
}

/// The errors of a response as a sequence, if it carries any.
pub open spec fn errors_view(errors: Option<Vec<ApiError>>) -> Option<Seq<ApiError>> {
    match errors {
        Some(v) => Some(v@),
        None => None,
    }
}

impl ApiErrorResponse {
    /// The response with its error list read as a sequence.
    pub open spec fn view_parts(self) -> (String, String, Option<Seq<ApiError>>) {
        (self.status, self.message, errors_view(self.errors))
    }

    /// A field-by-field copy.
    pub fn duplicate(&self) -> (r: ApiErrorResponse)
        ensures
            r.view_parts() == self.view_parts(),
    {
        let errors = match &self.errors {
            Some(v) => Some(copy_api_errors(v)),
            None => None,
        };
        ApiErrorResponse { status: self.status.clone(), message: self.message.clone(), errors }
    }
}

} // verus!
