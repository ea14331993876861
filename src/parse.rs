use vstd::prelude::*;

verus! {

/// A failure of the XML response decoder, with its message.
#[derive(Clone, Debug, PartialEq, Eq)]
pub struct XmlParseError(pub String);

impl XmlParseError {
    pub fn new(message: &str) -> (r: XmlParseError)
        ensures
            r.0@ == message@,
    {
        XmlParseError(message.to_owned())
    }
}

#[verifier::external_type_specification]
#[verifier::external_body]
pub struct ExJsonError(serde_json::Error);

} // verus!
