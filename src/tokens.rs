//! Tokens and growable token sequences.
use vstd::prelude::*;

verus! {

/// A token of the model's vocabulary, with sentinels for the stream's ends.
#[derive(Clone, Copy, Debug, PartialEq, Eq, Structural)]
pub enum LToken {
    BeginningOfStream,
    EndOfStream,
    Token(i32),
}

impl LToken {
    /// Tags a sampled id: the engine's end-of-stream id becomes `EndOfStream`.
    pub fn from_sampled(id: i32, eos_id: i32) -> (r: LToken)
        ensures
            r == (if id == eos_id { LToken::EndOfStream } else { LToken::Token(id) }),
    {
        if id == eos_id {
            LToken::EndOfStream
        } else {
            LToken::Token(id)
        }
    }

    /// The id stored for this token, given the engine's sentinel ids.
    pub fn native_value(&self, bos_id: i32, eos_id: i32) -> (r: i32)
        ensures
            r == match *self {
                LToken::BeginningOfStream => bos_id,
                LToken::EndOfStream => eos_id,
                LToken::Token(t) => t,
            },
    {
        match *self {
            LToken::BeginningOfStream => bos_id,
            LToken::EndOfStream => eos_id,
            LToken::Token(t) => t,
        }
    }

    /// Whether the token stands for text.
    pub fn has_str_value(&self) -> (r: bool)
        ensures
            r == (*self is Token),
    {
        match *self {
            LToken::Token(_) => true,
            _ => false,
        }
    }
}

/// Id that fills the slots that `resize` adds.
pub const DEFAULT_TOKEN: i32 = 0;

/// An ordered sequence of token ids.
pub struct LTokenSequence {
    pub tokens: Vec<i32>,
}

/// Relies on Vec::capacity: the allocation holds at least the elements.
#[verifier::external_body]
fn vec_capacity(v: &Vec<i32>) -> (r: usize)
    ensures
        r >= v@.len(),
{
    v.capacity()
}

impl LTokenSequence {
    pub open spec fn view(&self) -> Seq<i32> {
        self.tokens@
    }

    pub fn new() -> (r: LTokenSequence)
        ensures
            r.view() == Seq::<i32>::empty(),
    {
        LTokenSequence { tokens: Vec::new() }
    }

    /// Truncates to `length`, or pads with `DEFAULT_TOKEN` up to it.
    pub fn resize(&mut self, length: usize)
        ensures
            final(self).view().len() == length,
            forall|i: int|
                0 <= i < length ==> final(self).view()[i] == if i < old(self).view().len() {
                    old(self).view()[i]
                } else {
                    DEFAULT_TOKEN
                },
    {
        if self.tokens.len() > length {
            self.tokens.truncate(length);
        } else {
            let ghost start = self.tokens@;
            while self.tokens.len() < length
                invariant
                    start.len() <= self.tokens@.len() <= length,
                    forall|i: int|
                        0 <= i < self.tokens@.len() ==> self.tokens@[i] == if i < start.len() {
                            start[i]
                        } else {
                            DEFAULT_TOKEN
                        },
                decreases length - self.tokens@.len(),
            {
                self.tokens.push(DEFAULT_TOKEN);
            }
        }
    }

    pub fn len(&self) -> (r: usize)
        ensures
            r == self.view().len(),
    {
        self.tokens.len()
    }

    /// Room allocated for tokens; never less than the length.
    pub fn capacity(&self) -> (r: usize)
        ensures
            r >= self.view().len(),
    {
        vec_capacity(&self.tokens)
    }

    pub fn is_empty(&self) -> (r: bool)
        ensures
            r == (self.view().len() == 0),
    {
        self.tokens.len() == 0
    }

    pub fn push(&mut self, id: i32)
        ensures
            final(self).view() == old(self).view().push(id),
    {
        self.tokens.push(id);
    }

    /// Sets every token to zero, keeping the length.
    pub fn clear(&mut self)
        ensures
            final(self).view().len() == old(self).view().len(),
            forall|i: int| 0 <= i < final(self).view().len() ==> final(self).view()[i] == 0,
    {
        let mut i: usize = 0;
        while i < self.tokens.len()
            invariant
                i <= self.tokens@.len(),
                self.tokens@.len() == old(self).view().len(),
                forall|j: int| 0 <= j < i ==> self.tokens@[j] == 0,
            decreases self.tokens@.len() - i,
        {
            self.tokens.set(i, 0);
            i = i + 1;
        }
    }

    /// The tokens from `start_idx` on.
    pub fn slice(&self, start_idx: usize) -> (r: LTokenSequence)
        requires
            start_idx <= self.view().len(),
        ensures
            r.view() == self.view().subrange(start_idx as int, self.view().len() as int),
    {
        let mut out: Vec<i32> = Vec::new();
        let mut i: usize = start_idx;
        while i < self.tokens.len()
            invariant
                start_idx <= i <= self.tokens@.len(),
                out@ == self.tokens@.subrange(start_idx as int, i as int),
            decreases self.tokens@.len() - i,
        {
            out.push(self.tokens[i]);
            i = i + 1;
        }
        LTokenSequence { tokens: out }
    }

    /// The ids as a list.
    pub fn ids(&self) -> (r: Vec<i32>)
        ensures
            r@ == self.view(),
    {
        self.tokens.clone()
    }
}

impl Default for LTokenSequence {
    fn default() -> (r: LTokenSequence)
        ensures
            r.view() == Seq::<i32>::empty(),
    {
        LTokenSequence::new()
    }
}

} // verus!
