//! Why a painter could not be made.

use vstd::prelude::*;
use vstd::std_specs::convert::FromSpecImpl;
use vstd::string::StringExecFns;

verus! {

/// The reason why no painter was made: the context is too old, or a shader
/// did not compile, or the program did not link, or a buffer could not be
/// created. It holds the reason in words.
#[derive(Debug)]
pub struct PainterError(pub String);

impl View for PainterError {
    type V = Seq<char>;

    /// The reason, as it was given.
    open spec fn view(&self) -> Seq<char> {
        self.0@
    }
}

impl From<String> for PainterError {
    #[inline]
    fn from(value: String) -> (error: Self) {
        PainterError(value)
    }
}

impl FromSpecImpl<String> for PainterError {
    open spec fn obeys_from_spec() -> bool {
        true
    }

    open spec fn from_spec(value: String) -> Self {
        PainterError(value)
    }
}

impl PainterError {
    /// The error as shown to a reader: the reason, marked as coming from the
    /// graphics layer.
    pub fn message(&self) -> (text: String)
        ensures
            text@ == "OpenGL: "@ + self@,
    {
        String::from_str("OpenGL: ").concat(self.0.as_str())
    }
}

} // verus!
