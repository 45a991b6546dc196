use vstd::prelude::*;

verus! {

/// The JSON string literal that serde_json writes for a text: quoted and escaped.
pub uninterp spec fn json_quoted(text: Seq<char>) -> Seq<char>;

/// Relies on `serde_json::to_string` on a `str`: it writes the escaped, quoted
/// string into a vector, which cannot fail.
#[verifier::external_body]
pub(crate) fn json_string(text: &str) -> (r: String)
    ensures
        r@ == json_quoted(text@),
{
    match serde_json::to_string(text) {
        Ok(s) => s,
        Err(_) => String::new(),
    }
}

/// The failures the trigger endpoint reports.
#[derive(Debug)]
pub enum ApiError {
    InvalidSize,
    DbError(String),
    Unauthorized,
    NotFound,
    NotFoundFile(String),
    NetworkError(String),
    GitOpsError(String),
}

/// The human-readable text of an error.
pub open spec fn message_of(e: ApiError) -> Seq<char> {
    match e {
        ApiError::InvalidSize => "Invalid length"@,
        ApiError::DbError(s) => "Db error "@ + s@,
        ApiError::Unauthorized => "Unauthorized"@,
        ApiError::NotFound => "Resource Not found"@,
        ApiError::NotFoundFile(s) => "Not found file: "@ + s@,
        ApiError::NetworkError(s) => "Network error: "@ + s@,
        ApiError::GitOpsError(s) => "Git ops error: "@ + s@,
    }
}

/// The HTTP status of an error: 401, 404, or 500 for everything else.
pub open spec fn status_of(e: ApiError) -> u16 {
    match e {
        ApiError::Unauthorized => 401,
        ApiError::NotFound => 404,
        _ => 500,
    }
}

/// `{"error":<message>,"code":-1}`.
pub open spec fn error_envelope(message: Seq<char>) -> Seq<char> {
    "{\"error\":"@ + json_quoted(message) + ",\"code\":-1}"@
}

/// `{"message":<message>,"status":1}`.
pub open spec fn success_envelope(message: Seq<char>) -> Seq<char> {
    "{\"message\":"@ + json_quoted(message) + ",\"status\":1}"@
}

fn prefixed(prefix: &str, rest: &String) -> (r: String)
    ensures
        r@ == prefix@ + rest@,
{
    String::from_str(prefix).concat(rest.as_str())
}

impl ApiError {
    /// The error's text, as the endpoint reports it.
    pub fn message(&self) -> (r: String)
        ensures
            r@ == message_of(*self),
    {
        match self {
            ApiError::InvalidSize => String::from_str("Invalid length"),
            ApiError::DbError(s) => prefixed("Db error ", s),
            ApiError::Unauthorized => String::from_str("Unauthorized"),
            ApiError::NotFound => String::from_str("Resource Not found"),
            ApiError::NotFoundFile(s) => prefixed("Not found file: ", s),
            ApiError::NetworkError(s) => prefixed("Network error: ", s),
            ApiError::GitOpsError(s) => prefixed("Git ops error: ", s),
        }
    }

    /// The HTTP status the error is answered with.
    pub fn status_code(&self) -> (r: u16)
        ensures
            r == status_of(*self),
    {
        match self {
            ApiError::Unauthorized => 401,
            ApiError::NotFound => 404,
            _ => 500,
        }
    }

    /// The JSON body the error is answered with.
    pub fn error_response(&self) -> (r: String)
        ensures
            r@ == error_envelope(message_of(*self)),
    {
        let m = self.message();
        error_body(m.as_str())
    }
}

/// `{"error":<message>,"code":-1}` for an already formed message.
pub fn error_body(message: &str) -> (r: String)
    ensures
        r@ == error_envelope(message@),
{
    let head = String::from_str("{\"error\":");
    let quoted = json_string(message);
    let r = head.concat(quoted.as_str()).concat(",\"code\":-1}");
    assert(r@ =~= error_envelope(message@));
    r
}

/// The body of a successful synchronization: `{"message":<message>,"status":1}`.
pub fn success_body(message: &str) -> (r: String)
    ensures
        r@ == success_envelope(message@),
{
    let head = String::from_str("{\"message\":");
    let quoted = json_string(message);
    let r = head.concat(quoted.as_str()).concat(",\"status\":1}");
    assert(r@ =~= success_envelope(message@));
    r
}

} // verus!
