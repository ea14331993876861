use vstd::prelude::*;
use vstd::string::to_string_from_display_ensures;
use vstd::utf8::{decode_utf8, valid_utf8};

use crate::describe::DescribeError;

verus! {

#[verifier::external_type_specification]
#[verifier::external_body]
pub struct ExIoError(std::io::Error);

/// Relies on `std::str::from_utf8`: the bytes are read as text exactly when
/// they are well-formed UTF-8.
#[verifier::external_body]
fn utf8_text(bytes: &[u8]) -> (r: Option<&str>)
    ensures
        match r {
            Some(s) => valid_utf8(bytes@) && s@ == decode_utf8(bytes@),
            None => !valid_utf8(bytes@),
        },
{
    std::str::from_utf8(bytes).ok()
}

/// A failure met by the transport while sending a request or reading its
/// response.
#[derive(Clone, Debug, PartialEq, Eq)]
pub struct HttpDispatchError {
    message: String,
}

impl HttpDispatchError {
    pub fn new(message: String) -> (r: HttpDispatchError)
        ensures
            r.message_view() == message@,
    {
        HttpDispatchError { message }
    }

    pub closed spec fn message_view(&self) -> Seq<char> {
        self.message@
    }
}

impl DescribeError for HttpDispatchError {
    open spec fn description_view(&self) -> Seq<char> {
        self.message_view()
    }

    fn description(&self) -> (r: &str) {
        self.message.as_str()
    }
}

/// An I/O fault becomes a transport failure that carries the fault's text,
/// as its `to_string` renders it.
impl From<std::io::Error> for HttpDispatchError {
    fn from(err: std::io::Error) -> (r: HttpDispatchError)
        ensures
            exists|text: String|
                to_string_from_display_ensures::<std::io::Error>(&err, text)
                    && r.message_view() == text@,
    {
        HttpDispatchError::new(err.to_string())
    }
}

/// The text of an I/O fault is known only through the relation that `to_string`
/// has with it (see the `ensures` of `from` above), not as a value.

impl vstd::std_specs::convert::FromSpecImpl<std::io::Error> for HttpDispatchError {
    open spec fn obeys_from_spec() -> bool {
        false
    }

    open spec fn from_spec(err: std::io::Error) -> HttpDispatchError {
        arbitrary()
    }
}

/// The text that stands for the body of a response: the body itself where it
/// is well-formed UTF-8, and a fixed notice where it is not.
pub open spec fn body_text(body: Seq<u8>) -> Seq<char> {
    if valid_utf8(body) {
        decode_utf8(body)
    } else {
        UNREADABLE_BODY@
    }
}

/// What stands for a response body that is not well-formed UTF-8.
pub const UNREADABLE_BODY: &'static str = "unknown error";

/// A response that was read in full, kept for the caller to inspect.
#[derive(Clone, Debug, PartialEq, Eq)]
pub struct BufferedHttpResponse {
    pub status: u16,
    pub headers: Vec<(String, String)>,
    pub body: Vec<u8>,
}

impl BufferedHttpResponse {
    /// The body as text, or a fixed notice where it is not UTF-8.
    pub fn body_as_str(&self) -> (r: &str)
        ensures
            r@ == body_text(self.body@),
    {
        match utf8_text(self.body.as_slice()) {
            Some(text) => text,
            None => UNREADABLE_BODY,
        }
    }
}

} // verus!
