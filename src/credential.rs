use vstd::prelude::*;

use crate::describe::DescribeError;

verus! {

/// A failure met while resolving the credentials of a request.
#[derive(Clone, Debug, PartialEq, Eq)]
pub struct CredentialsError {
    pub message: String,
}

impl CredentialsError {
    pub fn new(message: &str) -> (r: CredentialsError)
        ensures
            r.message@ == message@,
    {
        CredentialsError { message: message.to_owned() }
    }
}

impl DescribeError for CredentialsError {
    open spec fn description_view(&self) -> Seq<char> {
        self.message@
    }

    fn description(&self) -> (r: &str) {
        self.message.as_str()
    }
}

} // verus!
