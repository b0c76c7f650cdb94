use vstd::prelude::*;

verus! {

/// A failure that crosses the language boundary as plain text, in place of a
/// native exception that cannot.
#[derive(Debug)]
pub struct CxxAsyncException {
    what: String,
}

impl View for CxxAsyncException {
    type V = Seq<char>;

    /// The message text.
    closed spec fn view(&self) -> Seq<char> {
        self.what@
    }
}

impl CxxAsyncException {
    /// Builds the envelope around `what`.
    pub fn new(what: Box<str>) -> (exception: Self)
        ensures
            exception@ == what@,
    {
        Self::from_message(&what)
    }

    /// Builds the envelope around a copy of `message`.
    pub fn from_message(message: &str) -> (exception: Self)
        ensures
            exception@ == message@,
    {
        Self { what: message.to_owned() }
    }

    /// The message text, unchanged since the envelope was built.
    pub fn what(&self) -> (text: &str)
        ensures
            text@ == self@,
    {
        self.what.as_str()
    }

    /// The message text as an owned string: what printing the exception shows.
    pub fn message(&self) -> (text: String)
        ensures
            text@ == self@,
    {
        self.what.clone()
    }
}

} // verus!
