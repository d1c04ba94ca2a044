use vstd::prelude::*;
use crate::message::{line_of, Msg};

verus! {

/// The lines shown in the chat panel, oldest first. Lines are only ever
/// appended: none is removed, reordered or changed in place.
pub struct ChatLog {
    lines: Vec<String>,
}

impl View for ChatLog {
    type V = Seq<Seq<char>>;

    closed spec fn view(&self) -> Seq<Seq<char>> {
        self.lines@.map_values(|s: String| s@)
    }
}

impl ChatLog {
    pub fn new() -> (r: ChatLog)
        ensures
            r@ == Seq::<Seq<char>>::empty(),
    {
        let r = ChatLog { lines: Vec::new() };
        assert(r@ =~= Seq::<Seq<char>>::empty());
        r
    }

    pub fn len(&self) -> (r: usize)
        ensures
            r == self@.len(),
    {
        self.lines.len()
    }

    /// Appends one whole line at the end of the log.
    pub fn append(&mut self, line: String)
        ensures
            final(self)@ == old(self)@.push(line@),
    {
        self.lines.push(line);
        assert(final(self)@ =~= old(self)@.push(line@));
    }

    /// Appends the formatted line of a message.
    pub fn push_message(&mut self, m: &Msg)
        ensures
            final(self)@ == old(self)@.push(line_of(m.user_name@, m.content@)),
    {
        let line = m.line();
        self.append(line);
    }

    /// The line at position `i`.
    pub fn line(&self, i: usize) -> (r: &String)
        requires
            i < self@.len(),
        ensures
            r@ == self@[i as int],
    {
        &self.lines[i]
    }

    /// Every line of the log, oldest first, for the render path to show.
    pub fn lines(&self) -> (r: &Vec<String>)
        ensures
            r@.map_values(|s: String| s@) == self@,
    {
        &self.lines
    }
}

} // verus!
