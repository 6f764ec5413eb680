//! A forward-only scanner over one input line.
//!
//! The scanner walks the characters of a single command line, remembering
//! the position of each one, and never moves backwards. It offers peeking
//! through conditional consumption, and extraction of the slice that a run
//! of consumptions covered.

use vstd::prelude::*;

verus! {

/// A forward cursor over the characters of one input line.
///
/// `chars` holds the whole line and never changes; `pos` only grows.
/// Positions count characters, not bytes, so `pos` doubles as the index
/// handed out by the `*_with_index` methods.
pub struct InputStream {
    /// All characters of the line being scanned.
    pub chars: Vec<char>,
    /// The position of the next character to be consumed.
    pub pos: usize,
}

/// Collects the characters of `input`, in order.
pub fn chars_of(input: &str) -> (r: Vec<char>)
    ensures
        r@ == input@,
{
    let mut chars: Vec<char> = Vec::new();
    for c in it: input.chars()
        invariant
            chars@ == it.seq().take(it.index() as int),
            it.seq() == input@,
    {
        chars.push(c);
    }
    assert(chars@ =~= input@);
    chars
}

impl InputStream {
    /// The cursor never points past the end of the line.
    pub open spec fn wf(self) -> bool {
        self.pos <= self.chars@.len()
    }

    /// The characters that have not been consumed yet.
    pub open spec fn remaining(self) -> Seq<char> {
        self.chars@.skip(self.pos as int)
    }

    /// Starts a scan at the beginning of `input`.
    pub fn from_input(input: &str) -> (s: Self)
        ensures
            s.wf(),
            s.chars@ == input@,
            s.pos == 0,
            s.remaining() == input@,
    {
        let s = InputStream { chars: chars_of(input), pos: 0 };
        assert(s.remaining() =~= input@);
        s
    }

    /// Consumes and returns the next character, if any.
    pub fn next(&mut self) -> (r: Option<char>)
        requires
            old(self).wf(),
        ensures
            final(self).wf(),
            final(self).chars == old(self).chars,
            old(self).remaining().len() > 0 ==> r == Some(old(self).remaining()[0])
                && final(self).pos == old(self).pos + 1,
            old(self).remaining().len() == 0 ==> r is None && final(self).pos == old(self).pos,
    {
        if self.pos < self.chars.len() {
            let c = self.chars[self.pos];
            self.pos = self.pos + 1;
            Some(c)
        } else {
            None
        }
    }

    /// Consumes and returns the next character together with its position.
    pub fn next_with_index(&mut self) -> (r: Option<(usize, char)>)
        requires
            old(self).wf(),
        ensures
            final(self).wf(),
            final(self).chars == old(self).chars,
            old(self).remaining().len() > 0 ==> r == Some(
                (old(self).pos, old(self).remaining()[0]),
            ) && final(self).pos == old(self).pos + 1,
            old(self).remaining().len() == 0 ==> r is None && final(self).pos == old(self).pos,
    {
        if self.pos < self.chars.len() {
            let i = self.pos;
            let c = self.chars[i];
            self.pos = self.pos + 1;
            Some((i, c))
        } else {
            None
        }
    }

    /// Consumes the next character only when `f` accepts it.
    pub fn next_if<F: Fn(char) -> bool>(&mut self, f: F) -> (r: Option<char>)
        requires
            old(self).wf(),
            forall|c: char| #[trigger] call_requires(f, (c,)),
        ensures
            final(self).wf(),
            final(self).chars == old(self).chars,
            match r {
                Some(c) => old(self).remaining().len() > 0 && c == old(self).remaining()[0]
                    && call_ensures(f, (c,), true) && final(self).pos == old(self).pos + 1,
                None => final(self).pos == old(self).pos && (old(self).remaining().len() > 0
                    ==> call_ensures(f, (old(self).remaining()[0],), false)),
            },
    {
        if self.pos < self.chars.len() {
            let c = self.chars[self.pos];
            if f(c) {
                self.pos = self.pos + 1;
                Some(c)
            } else {
                None
            }
        } else {
            None
        }
    }

    /// Consumes the next character only when it equals `expected`.
    pub fn next_if_eq(&mut self, expected: char) -> (r: Option<char>)
        requires
            old(self).wf(),
        ensures
            final(self).wf(),
            final(self).chars == old(self).chars,
            old(self).remaining().len() > 0 && old(self).remaining()[0] == expected ==> r
                == Some(expected) && final(self).pos == old(self).pos + 1,
            !(old(self).remaining().len() > 0 && old(self).remaining()[0] == expected) ==> r
                is None && final(self).pos == old(self).pos,
    {
        if self.pos < self.chars.len() {
            let c = self.chars[self.pos];
            if c == expected {
                self.pos = self.pos + 1;
                Some(c)
            } else {
                None
            }
        } else {
            None
        }
    }

    /// Consumes the next character, with its position, only when `f`
    /// accepts it.
    pub fn next_if_with_index<F: Fn(char) -> bool>(&mut self, f: F) -> (r: Option<(usize, char)>)
        requires
            old(self).wf(),
            forall|c: char| #[trigger] call_requires(f, (c,)),
        ensures
            final(self).wf(),
            final(self).chars == old(self).chars,
            match r {
                Some((i, c)) => old(self).remaining().len() > 0 && i == old(self).pos && c == old(
                    self,
                ).remaining()[0] && call_ensures(f, (c,), true) && final(self).pos == old(self).pos
                    + 1,
                None => final(self).pos == old(self).pos && (old(self).remaining().len() > 0
                    ==> call_ensures(f, (old(self).remaining()[0],), false)),
            },
    {
        if self.pos < self.chars.len() {
            let i = self.pos;
            let c = self.chars[i];
            if f(c) {
                self.pos = self.pos + 1;
                Some((i, c))
            } else {
                None
            }
        } else {
            None
        }
    }

    /// Consumes everything that is left and returns the slice of the line
    /// from position `start` to its end.
    pub fn consume(&mut self, start: usize) -> (r: Vec<char>)
        requires
            old(self).wf(),
            start <= old(self).chars@.len(),
        ensures
            final(self).wf(),
            final(self).chars == old(self).chars,
            final(self).pos == final(self).chars@.len(),
            r@ == old(self).chars@.skip(start as int),
    {
        let mut out: Vec<char> = Vec::new();
        let mut i = start;
        while i < self.chars.len()
            invariant
                start <= i <= self.chars@.len(),
                out@ == self.chars@.subrange(start as int, i as int),
            decreases self.chars@.len() - i,
        {
            out.push(self.chars[i]);
            i = i + 1;
        }
        self.pos = self.chars.len();
        assert(out@ =~= self.chars@.skip(start as int));
        out
    }

    /// Consumes a maximal run of characters that `f` accepts and returns
    /// the slice of the line from position `start` to the end of the run.
    pub fn consume_while<F: Fn(char) -> bool>(&mut self, start: usize, f: F) -> (r: Vec<char>)
        requires
            old(self).wf(),
            start <= old(self).pos,
            forall|c: char| #[trigger] call_requires(f, (c,)),
        ensures
            final(self).wf(),
            final(self).chars == old(self).chars,
            old(self).pos <= final(self).pos,
            r@ == final(self).chars@.subrange(start as int, final(self).pos as int),
            forall|i: int|
                old(self).pos <= i < final(self).pos ==> call_ensures(f, (final(self).chars@[i],), true),
            final(self).pos < final(self).chars@.len() ==> call_ensures(
                f,
                (final(self).chars@[final(self).pos as int],),
                false,
            ),
    {
        let mut out: Vec<char> = Vec::new();
        let mut i = start;
        while i < self.pos
            invariant
                start <= i <= self.pos,
                self.pos <= self.chars@.len(),
                out@ == self.chars@.subrange(start as int, i as int),
            decreases self.pos - i,
        {
            out.push(self.chars[i]);
            i = i + 1;
        }
        let ghost entry_pos = self.pos as int;
        while self.pos < self.chars.len()
            invariant_except_break
                true,
            invariant
                start <= entry_pos <= self.pos <= self.chars@.len(),
                self.chars == old(self).chars,
                out@ == self.chars@.subrange(start as int, self.pos as int),
                forall|j: int|
                    entry_pos <= j < self.pos ==> call_ensures(f, (self.chars@[j],), true),
                forall|c: char| #[trigger] call_requires(f, (c,)),
            ensures
                final(self).pos < final(self).chars@.len() ==> call_ensures(
                    f,
                    (final(self).chars@[final(self).pos as int],),
                    false,
                ),
            decreases self.chars@.len() - self.pos,
        {
            let c = self.chars[self.pos];
            if !f(c) {
                break ;
            }
            out.push(c);
            self.pos = self.pos + 1;
        }
        out
    }
}

} // verus!
