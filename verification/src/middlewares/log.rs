use vstd::prelude::*;
use uuid::Uuid;

verus! {

/// The middleware that gives each request an id for the log.
pub struct Log;

/// The id of one request.
#[derive(Debug, Clone)]
pub struct RequestId(pub String);

/// A service wrapped by `Log`.
pub struct LogMiddleware<S> {
    pub service: S,
}

/// `c` is a digit or one of the letters `a` to `f`.
pub open spec fn is_lower_hex(c: char) -> bool {
    ('0' <= c <= '9') || ('a' <= c <= 'f')
}

/// `s` has the shape of a UUID in text: 36 characters, hyphens at the
/// places 8, 13, 18 and 23, lower-case hexadecimal digits elsewhere.
pub open spec fn is_uuid_text(s: Seq<char>) -> bool {
    &&& s.len() == 36
    &&& forall|i: int|
        0 <= i < 36 ==> if i == 8 || i == 13 || i == 18 || i == 23 {
            #[trigger] s[i] == '-'
        } else {
            is_lower_hex(s[i])
        }
}

/// `Uuid::new_v4` draws a random UUID, written in its hyphenated form.
/// Which one is left open: two calls may differ.
#[verifier::external_body]
fn uuid_v4_text() -> (text: String)
    ensures
        is_uuid_text(text@),
{
    Uuid::new_v4().to_string()
}

impl RequestId {
    /// A new random id.
    pub fn new() -> (id: RequestId)
        ensures
            is_uuid_text(id.0@),
    {
        RequestId(uuid_v4_text())
    }
}

impl Default for RequestId {
    fn default() -> (id: RequestId)
        ensures
            is_uuid_text(id.0@),
    {
        RequestId::new()
    }
}

impl Log {
    /// Wraps `service`.
    pub fn create<S>(&self, service: S) -> (wrapped: LogMiddleware<S>)
        ensures
            wrapped.service == service,
    {
        LogMiddleware { service }
    }
}

} // verus!
