//! Small text-processing nodes.

use vstd::prelude::*;
use vstd::string::StrSliceExecFns;
use vstd::string::StringExecFns;

use crate::error::{AnchorChainError, ErrorV};
use crate::node::{outcome_view, Node, Stateless};

verus! {

/// The number of newline characters in `s`.
pub open spec fn spec_newline_count(s: Seq<char>) -> nat
    decreases s.len(),
{
    if s.len() == 0 {
        0
    } else {
        spec_newline_count(s.drop_last()) + if s.last() == '\n' {
            1nat
        } else {
            0nat
        }
    }
}

proof fn lemma_newline_count_le(s: Seq<char>)
    ensures
        spec_newline_count(s) <= s.len(),
    decreases s.len(),
{
    if s.len() > 0 {
        lemma_newline_count_le(s.drop_last());
    }
}

/// The number of lines in `s`: one per newline character, plus one for a
/// final fragment not ended by a newline. The empty string has no lines.
pub open spec fn spec_line_count(s: Seq<char>) -> nat {
    if s.len() == 0 {
        0
    } else if s.last() == '\n' {
        spec_newline_count(s)
    } else {
        spec_newline_count(s) + 1
    }
}

/// A node that counts the lines of its input text.
pub struct LineCounter {

}

impl LineCounter {
    /// Creates a new `LineCounter`.
    pub fn new() -> (r: Self) {
        LineCounter {  }
    }
}

impl Node for LineCounter {
    type Input = String;

    type Output = usize;

    open spec fn spec_result(&self, iv: Seq<char>) -> Result<usize, ErrorV> {
        Ok(spec_line_count(iv) as usize)
    }

    open spec fn spec_advances(&self, iv: Seq<char>, post: Self) -> bool {
        post == *self
    }

    /// Returns the number of lines in the input.
    fn process(&mut self, input: String) -> (r: Result<usize, AnchorChainError>)
        ensures
            outcome_view(r) == old(self).spec_result(input.deep_view()),
            old(self).spec_advances(input.deep_view(), *final(self)),
    {
        let s = input.as_str();
        let n = s.unicode_len();
        let mut newlines: usize = 0;
        let mut i: usize = 0;
        while i < n
            invariant
                n == s@.len(),
                i <= n,
                newlines <= i,
                newlines == spec_newline_count(s@.take(i as int)),
            decreases n - i,
        {
            if s.get_char(i) == '\n' {
                newlines += 1;
            }
            proof {
                assert(s@.take(i + 1).drop_last() =~= s@.take(i as int));
                assert(s@.take(i + 1).last() == s@[i as int]);
            }
            i += 1;
        }
        proof {
            assert(s@.take(n as int) =~= s@);
        }
        if n == 0 {
            Ok(0)
        } else if s.get_char(n - 1) == '\n' {
            Ok(newlines)
        } else {
            proof {
                lemma_newline_count_le(s@.drop_last());
                assert(s@.last() != '\n');
                assert(spec_newline_count(s@) == spec_newline_count(s@.drop_last()));
            }
            Ok(newlines + 1)
        }
    }
}

impl Stateless for LineCounter {

}

impl Default for LineCounter {
    fn default() -> (r: Self) {
        LineCounter::new()
    }
}

/// A node that produces a run of asterisks as long as its numeric input.
pub struct AsteriskGenerator {

}

impl AsteriskGenerator {
    /// Creates a new `AsteriskGenerator`.
    pub fn new() -> (r: Self) {
        AsteriskGenerator {  }
    }
}

impl Node for AsteriskGenerator {
    type Input = usize;

    type Output = String;

    open spec fn spec_result(&self, iv: usize) -> Result<Seq<char>, ErrorV> {
        Ok(Seq::new(iv as nat, |i: int| '*'))
    }

    open spec fn spec_advances(&self, iv: usize, post: Self) -> bool {
        post == *self
    }

    /// Returns a string of as many asterisks as the input says.
    fn process(&mut self, input: usize) -> (r: Result<String, AnchorChainError>)
        ensures
            outcome_view(r) == old(self).spec_result(input.deep_view()),
            old(self).spec_advances(input.deep_view(), *final(self)),
    {
        let mut acc = String::new();
        let mut i: usize = 0;
        while i < input
            invariant
                i <= input,
                acc@ =~= Seq::new(i as nat, |j: int| '*'),
            decreases input - i,
        {
            acc.append("*");
            proof {
                reveal_strlit("*");
                assert(acc@ =~= Seq::new((i + 1) as nat, |j: int| '*'));
            }
            i += 1;
        }
        Ok(acc)
    }
}

impl Stateless for AsteriskGenerator {

}

impl Default for AsteriskGenerator {
    fn default() -> (r: Self) {
        AsteriskGenerator::new()
    }
}

} // verus!
