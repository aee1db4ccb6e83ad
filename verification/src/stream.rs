//! The line source that the parser reads from: lines in order, read forward
//! only, with an end.

use vstd::prelude::*;
use crate::text::views;

verus! {

/// A sequence of lines with a reading position.
pub struct OutputStream {
    lines: Vec<String>,
    position: usize,
}

impl OutputStream {
    #[verifier::type_invariant]
    spec fn well_formed(self) -> bool {
        self.position <= self.lines@.len()
    }

    /// Every line of the source, read or not.
    pub closed spec fn lines(&self) -> Seq<Seq<char>> {
        views(self.lines@)
    }

    /// How many lines have been read.
    pub closed spec fn consumed(&self) -> nat {
        self.position as nat
    }

    /// The lines that are still to be read.
    pub open spec fn remaining(&self) -> Seq<Seq<char>> {
        self.lines().skip(self.consumed() as int)
    }

    /// A source that hands out `lines`, first to last.
    pub fn new(lines: Vec<String>) -> (r: OutputStream)
        ensures
            r.lines() == views(lines@),
            r.consumed() == 0,
    {
        OutputStream { lines, position: 0 }
    }

    /// The next line, or `None` at the end of the source.
    pub fn next_line(&mut self) -> (r: Option<String>)
        ensures
            final(self).lines() == old(self).lines(),
            old(self).consumed() <= old(self).lines().len(),
            final(self).consumed() <= final(self).lines().len(),
            match r {
                Some(line) => {
                    &&& old(self).remaining().len() > 0
                    &&& line@ == old(self).remaining()[0]
                    &&& final(self).remaining() == old(self).remaining().drop_first()
                    &&& final(self).consumed() == old(self).consumed() + 1
                },
                None => {
                    &&& old(self).remaining().len() == 0
                    &&& final(self).remaining() == old(self).remaining()
                    &&& final(self).consumed() == old(self).consumed()
                },
            },
    {
        proof {
            use_type_invariant(&*self);
        }
        if self.position < self.lines.len() {
            let line = self.lines[self.position].clone();
            proof {
                let all = views(self.lines@);
                assert(all.skip(self.position as int).drop_first() =~= all.skip(
                    self.position as int + 1,
                ));
            }
            self.position += 1;
            Some(line)
        } else {
            None
        }
    }

    /// How many lines have been read.
    pub fn position(&self) -> (n: usize)
        ensures
            n == self.consumed(),
            n <= self.lines().len(),
    {
        proof {
            use_type_invariant(self);
        }
        self.position
    }

    /// Whether every line has been read.
    pub fn is_exhausted(&self) -> (b: bool)
        ensures
            b == (self.remaining().len() == 0),
    {
        proof {
            use_type_invariant(self);
        }
        self.position >= self.lines.len()
    }
}

} // verus!
