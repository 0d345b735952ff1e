//! The address type carried by named-address headers. Its inner structure
//! belongs to a collaborator; here it is an opaque text whose canonical
//! rendering is used verbatim inside angle brackets.

use vstd::prelude::*;

verus! {

/// An address in its canonical text form.
#[derive(Clone, Debug)]
pub struct Uri {
    text: String,
}

impl View for Uri {
    type V = Seq<char>;

    closed spec fn view(&self) -> Seq<char> {
        self.text@
    }
}

impl Uri {
    /// Wraps an already-rendered address text.
    pub fn new(text: String) -> (r: Uri)
        ensures
            r@ == text@,
    {
        Uri { text }
    }

    /// The canonical text of this address.
    pub fn as_str(&self) -> (r: &str)
        ensures
            r@ == self@,
    {
        self.text.as_str()
    }
}

} // verus!
