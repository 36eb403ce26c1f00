//! The block of ASCII art that the fact column is laid out against.

use vstd::prelude::*;

verus! {

/// A block of art: one or more lines of text.
pub struct ArtBlock {
    lines: usize,
    text: Vec<String>,
}

impl View for ArtBlock {
    type V = Seq<String>;

    closed spec fn view(&self) -> Seq<String> {
        self.text@
    }
}

impl ArtBlock {
    /// `lines` counts the lines of `text`, of which there is at least one.
    #[verifier::type_invariant]
    closed spec fn inv(self) -> bool {
        &&& self.lines == self.text@.len()
        &&& self.lines >= 1
    }

    /// The block made of `text`; `None` when `text` holds no line.
    pub fn new(text: Vec<String>) -> (r: Option<ArtBlock>)
        ensures
            r is Some <==> text@.len() >= 1,
            r is Some ==> r->0@ == text@,
    {
        if text.len() == 0 {
            None
        } else {
            Some(ArtBlock { lines: text.len(), text })
        }
    }

    /// The number of lines, at least one.
    pub fn lines(&self) -> (r: usize)
        ensures
            r == self@.len(),
            r >= 1,
    {
        proof {
            use_type_invariant(self);
        }
        self.lines
    }

    pub fn text(&self) -> (r: &Vec<String>)
        ensures
            r@ == self@,
    {
        &self.text
    }
}

} // verus!
