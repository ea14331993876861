use vstd::prelude::*;

verus! {

/// A failure value that can give a human-readable description of itself.
///
/// Service-specific error types implement this so that the envelope can
/// present them; `description_view` is the text that `description` returns.
pub trait DescribeError {
    spec fn description_view(&self) -> Seq<char>;

    fn description(&self) -> (r: &str)
        ensures
            r@ == self.description_view(),
    ;
}

} // verus!
