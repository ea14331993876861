use vstd::prelude::*;
use vstd::std_specs::convert::FromSpec;

use crate::credential::CredentialsError;
use crate::describe::DescribeError;
use crate::error::{ErrorSource, RusotoError};
use crate::parse::XmlParseError;
use crate::request::{BufferedHttpResponse, HttpDispatchError};

verus! {

/// A failure of the XML decoder becomes `ParseError`, and the envelope shows
/// the decoder's message as it stands.
pub proof fn lemma_xml_failure_shows_its_message<E: DescribeError>(err: XmlParseError)
    ensures
        <RusotoError<E> as FromSpec<XmlParseError>>::obeys_from_spec(),
        <RusotoError<E> as FromSpec<XmlParseError>>::from_spec(err) is ParseError,
        <RusotoError<E> as FromSpec<XmlParseError>>::from_spec(err).description_view()
            == err.0@,
{
}

/// Whichever decoder failed, a `ParseError` shows exactly the text it carries.
pub proof fn lemma_parse_error_shows_its_text<E: DescribeError>(e: RusotoError<E>)
    requires
        e is ParseError,
    ensures
        e.description_view() == e->ParseError_0@,
{
}

/// A credential failure is carried unchanged in `Credentials`, and it is the
/// envelope's cause.
pub proof fn lemma_credentials_failure_is_the_source<E>(c: CredentialsError)
    ensures
        <RusotoError<E> as FromSpec<CredentialsError>>::obeys_from_spec(),
        <RusotoError<E> as FromSpec<CredentialsError>>::from_spec(c)
            == RusotoError::<E>::Credentials(c),
        <RusotoError<E> as FromSpec<CredentialsError>>::from_spec(c).source_view()
            == Some(ErrorSource::<E>::Credentials(&c)),
{
}

/// A transport failure is carried unchanged in `HttpDispatch`, and it is the
/// envelope's cause.
pub proof fn lemma_dispatch_failure_is_the_source<E>(d: HttpDispatchError)
    ensures
        <RusotoError<E> as FromSpec<HttpDispatchError>>::obeys_from_spec(),
        <RusotoError<E> as FromSpec<HttpDispatchError>>::from_spec(d)
            == RusotoError::<E>::HttpDispatch(d),
        <RusotoError<E> as FromSpec<HttpDispatchError>>::from_spec(d).source_view()
            == Some(ErrorSource::<E>::HttpDispatch(&d)),
{
}

/// Taking a transport failure into the envelope and matching it back out
/// gives the very failure that went in.
pub proof fn lemma_dispatch_round_trip<E>(d: HttpDispatchError)
    ensures
        match <RusotoError<E> as FromSpec<HttpDispatchError>>::from_spec(d) {
            RusotoError::HttpDispatch(back) => back == d,
            _ => false,
        },
{
}

/// `ServiceCommonError` and `Validation` show their text unchanged.
pub proof fn lemma_text_variants_show_their_text<E: DescribeError>(text: String)
    ensures
        RusotoError::<E>::ServiceCommonError(text).description_view() == text@,
        RusotoError::<E>::Validation(text).description_view() == text@,
{
}

/// A kept response with an empty body is shown as the empty text.
pub proof fn lemma_empty_body_shows_empty_text<E: DescribeError>(response: BufferedHttpResponse)
    requires
        response.body@.len() == 0,
    ensures
        RusotoError::<E>::Unknown(response).description_view() == Seq::<char>::empty(),
{
}

/// Every envelope is of exactly one of the seven kinds.
pub proof fn lemma_exactly_one_variant<E>(e: RusotoError<E>)
    ensures
        (if e is Service { 1int } else { 0int })
            + (if e is ServiceCommonError { 1int } else { 0int })
            + (if e is HttpDispatch { 1int } else { 0int })
            + (if e is Credentials { 1int } else { 0int })
            + (if e is Validation { 1int } else { 0int })
            + (if e is ParseError { 1int } else { 0int })
            + (if e is Unknown { 1int } else { 0int }) == 1,
{
}

} // verus!
