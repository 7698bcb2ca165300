//! The lines of one submission in progress.
use vstd::prelude::*;
use crate::text::{joined, join_with, texts};

verus! {

/// The line separator kept between typed lines of one submission.
pub open spec fn newline() -> Seq<char> {
    seq!['\n']
}

/// The lines typed so far in the current turn, in order.
pub struct SessionBuffer {
    lines: Vec<String>,
}

impl View for SessionBuffer {
    type V = Seq<Seq<char>>;

    closed spec fn view(&self) -> Seq<Seq<char>> {
        texts(self.lines@)
    }
}

impl SessionBuffer {
    /// A buffer that holds no line.
    pub fn new() -> (r: SessionBuffer)
        ensures
            r@ == Seq::<Seq<char>>::empty(),
    {
        let r = SessionBuffer { lines: Vec::new() };
        assert(r@ =~= Seq::<Seq<char>>::empty());
        r
    }

    /// Adds one typed line at the end.
    pub fn append(&mut self, line: String)
        ensures
            final(self)@ == old(self)@.push(line@),
    {
        self.lines.push(line);
        assert(self@ =~= old(self)@.push(line@));
    }

    /// The submission text: the lines in order, joined by newlines.
    pub fn contents(&self) -> (r: String)
        ensures
            r@ == joined(self@, newline()),
    {
        let sep = "\n";
        proof {
            reveal_strlit("\n");
            assert(sep@ =~= newline());
        }
        join_with(&self.lines, sep)
    }

    /// Drops every line.
    pub fn reset(&mut self)
        ensures
            final(self)@ == Seq::<Seq<char>>::empty(),
    {
        self.lines = Vec::new();
        assert(self@ =~= Seq::<Seq<char>>::empty());
    }

    /// Whether no line has been typed in this turn.
    pub fn is_empty(&self) -> (r: bool)
        ensures
            r == (self@.len() == 0),
    {
        self.lines.len() == 0
    }
}

} // verus!
