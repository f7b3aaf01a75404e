use vstd::prelude::*;

verus! {

/// An immutable line of text.
#[derive(Debug, PartialEq)]
pub struct Entry<'a> {
    pub(crate) text: &'a str,
}

impl<'a> Entry<'a> {
    /// The text held.
    pub closed spec fn content(&self) -> Seq<char> {
        self.text@
    }

    pub fn new(text: &'a str) -> (r: Entry<'a>)
        ensures
            r.content() == text@,
    {
        Entry { text }
    }
}

} // verus!
