use vstd::prelude::*;
use vstd::string::to_string_from_display_ensures;

use crate::credential::CredentialsError;
use crate::describe::DescribeError;
use crate::parse::XmlParseError;
use crate::request::{body_text, BufferedHttpResponse, HttpDispatchError};

verus! {

/// The error returned by every operation of the client.
///
/// Exactly one kind of failure is carried at a time. `Service` and `Unknown`
/// keep what the remote end sent; the others carry a text, or the failure of
/// the transport or of credential resolution as it was raised.
#[derive(Debug, PartialEq)]
pub enum RusotoError<E> {
    /// The service answered with an error of its own for this operation.
    Service(E),
    /// The service answered with an error shared by all its operations.
    ServiceCommonError(String),
    /// The transport failed while sending the request or reading the response.
    HttpDispatch(HttpDispatchError),
    /// The credentials of the request could not be resolved.
    Credentials(CredentialsError),
    /// The request failed a validation check; the service's detail is kept.
    Validation(String),
    /// The response body could not be decoded.
    ParseError(String),
    /// The response matched no known error shape; it is kept whole.
    Unknown(BufferedHttpResponse),
}

/// The result of an operation of the client.
pub type RusotoResult<T, E> = Result<T, RusotoError<E>>;

/// The failure that an envelope reports as its cause.
#[derive(Debug, PartialEq)]
pub enum ErrorSource<'a, E> {
    Service(&'a E),
    Credentials(&'a CredentialsError),
    HttpDispatch(&'a HttpDispatchError),
}

impl<E> RusotoError<E> {
    /// The payload that stands as the cause: only the variants that carry a
    /// failure value have one; the text variants and `Unknown` have none.
    pub open spec fn source_view<'a>(&'a self) -> Option<ErrorSource<'a, E>> {
        match self {
            RusotoError::Service(err) => Some(ErrorSource::Service(err)),
            RusotoError::Credentials(err) => Some(ErrorSource::Credentials(err)),
            RusotoError::HttpDispatch(err) => Some(ErrorSource::HttpDispatch(err)),
            _ => None,
        }
    }

    /// The underlying failure, where the variant carries one.
    pub fn source<'a>(&'a self) -> (r: Option<ErrorSource<'a, E>>)
        ensures
            r == self.source_view(),
    {
        match self {
            RusotoError::Service(err) => Some(ErrorSource::Service(err)),
            RusotoError::Credentials(err) => Some(ErrorSource::Credentials(err)),
            RusotoError::HttpDispatch(err) => Some(ErrorSource::HttpDispatch(err)),
            _ => None,
        }
    }

    /// A JSON decoding failure becomes `ParseError` with the failure's text,
    /// as its `to_string` renders it.
    pub fn from_json_error(err: serde_json::Error) -> (r: Self)
        ensures
            r is ParseError,
            to_string_from_display_ensures::<serde_json::Error>(&err, r->ParseError_0),
    {
        RusotoError::ParseError(err.to_string())
    }

    /// An I/O fault is first taken as a transport failure, so it lands in
    /// `HttpDispatch` with the fault's text, as any other transport failure
    /// does.
    pub fn from_io_error(err: std::io::Error) -> (r: Self)
        ensures
            r is HttpDispatch,
            exists|text: String|
                to_string_from_display_ensures::<std::io::Error>(&err, text)
                    && r->HttpDispatch_0.message_view() == text@,
    {
        RusotoError::HttpDispatch(HttpDispatchError::from(err))
    }
}

impl<E: DescribeError> RusotoError<E> {
    /// The text shown for this failure, the same as its description.
    pub fn to_string(&self) -> (r: String)
        ensures
            r@ == self.description_view(),
    {
        self.description().to_owned()
    }
}

/// Each variant is described by its payload: a failure value by its own
/// description, a text as it stands, a kept response by its body's text.
impl<E: DescribeError> DescribeError for RusotoError<E> {
    open spec fn description_view(&self) -> Seq<char> {
        match self {
            RusotoError::Service(err) => err.description_view(),
            RusotoError::ServiceCommonError(text) => text@,
            RusotoError::HttpDispatch(err) => err.description_view(),
            RusotoError::Credentials(err) => err.description_view(),
            RusotoError::Validation(text) => text@,
            RusotoError::ParseError(text) => text@,
            RusotoError::Unknown(response) => body_text(response.body@),
        }
    }

    fn description(&self) -> (r: &str) {
        match self {
            RusotoError::Service(err) => err.description(),
            RusotoError::ServiceCommonError(text) => text.as_str(),
            RusotoError::HttpDispatch(err) => err.description(),
            RusotoError::Credentials(err) => err.description(),
            RusotoError::Validation(text) => text.as_str(),
            RusotoError::ParseError(text) => text.as_str(),
            RusotoError::Unknown(response) => response.body_as_str(),
        }
    }
}

impl<E> From<XmlParseError> for RusotoError<E> {
    fn from(err: XmlParseError) -> (r: Self) {
        let XmlParseError(message) = err;
        RusotoError::ParseError(message)
    }
}

impl<E> vstd::std_specs::convert::FromSpecImpl<XmlParseError> for RusotoError<E> {
    open spec fn obeys_from_spec() -> bool {
        true
    }

    open spec fn from_spec(err: XmlParseError) -> Self {
        RusotoError::ParseError(err.0)
    }
}

impl<E> From<serde_json::Error> for RusotoError<E> {
    fn from(err: serde_json::Error) -> (r: Self)
        ensures
            r is ParseError,
            to_string_from_display_ensures::<serde_json::Error>(&err, r->ParseError_0),
    {
        RusotoError::from_json_error(err)
    }
}

/// The text of a JSON failure is known only through the relation that
/// `to_string` has with it (see the `ensures` of `from` above), not as a value.
impl<E> vstd::std_specs::convert::FromSpecImpl<serde_json::Error> for RusotoError<E> {
    open spec fn obeys_from_spec() -> bool {
        false
    }

    open spec fn from_spec(err: serde_json::Error) -> Self {
        arbitrary()
    }
}

impl<E> From<CredentialsError> for RusotoError<E> {
    fn from(err: CredentialsError) -> (r: Self) {
        RusotoError::Credentials(err)
    }
}

impl<E> vstd::std_specs::convert::FromSpecImpl<CredentialsError> for RusotoError<E> {
    open spec fn obeys_from_spec() -> bool {
        true
    }

    open spec fn from_spec(err: CredentialsError) -> Self {
        RusotoError::Credentials(err)
    }
}

impl<E> From<HttpDispatchError> for RusotoError<E> {
    fn from(err: HttpDispatchError) -> (r: Self) {
        RusotoError::HttpDispatch(err)
    }
}

impl<E> vstd::std_specs::convert::FromSpecImpl<HttpDispatchError> for RusotoError<E> {
    open spec fn obeys_from_spec() -> bool {
        true
    }

    open spec fn from_spec(err: HttpDispatchError) -> Self {
        RusotoError::HttpDispatch(err)
    }
}

impl<E> From<std::io::Error> for RusotoError<E> {
    fn from(err: std::io::Error) -> (r: Self)
        ensures
            r is HttpDispatch,
            exists|text: String|
                to_string_from_display_ensures::<std::io::Error>(&err, text)
                    && r->HttpDispatch_0.message_view() == text@,
    {
        RusotoError::from_io_error(err)
    }
}

/// The text of an I/O fault is known only through the relation that
/// `to_string` has with it (see the `ensures` of `from` above), not as a value.
impl<E> vstd::std_specs::convert::FromSpecImpl<std::io::Error> for RusotoError<E> {
    open spec fn obeys_from_spec() -> bool {
        false
    }

    open spec fn from_spec(err: std::io::Error) -> Self {
        arbitrary()
    }
}

} // verus!
