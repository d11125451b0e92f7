//! Lines kept verbatim: data outside any recognized section.

use vstd::prelude::*;

verus! {

/// A data line found while no recognized section was active, preserved
/// verbatim.
#[derive(Debug, PartialEq)]
pub struct Unknown {
    pub text: String,
}

impl View for Unknown {
    type V = Seq<char>;

    open spec fn view(&self) -> Seq<char> {
        self.text@
    }
}

impl DeepView for Unknown {
    type V = Seq<char>;

    open spec fn deep_view(&self) -> Seq<char> {
        self.text@
    }
}

} // verus!
