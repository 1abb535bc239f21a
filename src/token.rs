use vstd::prelude::*;
use vstd::string::StrSliceExecFns;

verus! {

/// A player's mark. Two tokens are equal when their labels hold the same characters.
#[derive(Debug, Clone, Copy, Eq, Hash)]
pub struct Token<'a>(&'a str);

impl<'a> View for Token<'a> {
    type V = Seq<char>;

    closed spec fn view(&self) -> Seq<char> {
        self.0@
    }
}

impl<'a> Token<'a> {
    pub fn new(value: &'a str) -> (t: Token<'a>)
        ensures
            t@ == value@,
    {
        Token(value)
    }
}

impl<'a> PartialEq for Token<'a> {
    fn eq(&self, other: &Token<'a>) -> (r: bool) {
        let n = self.0.unicode_len();
        if n != other.0.unicode_len() {
            return false;
        }
        let mut i: usize = 0;
        while i < n
            invariant
                n == self@.len(),
                n == other@.len(),
                i <= n,
                forall|j: int| 0 <= j < i ==> self@[j] == other@[j],
            decreases n - i,
        {
            if self.0.get_char(i) != other.0.get_char(i) {
                return false;
            }
            i = i + 1;
        }
        proof {
            assert(self@ =~= other@);
        }
        true
    }
}

impl<'a> vstd::std_specs::cmp::PartialEqSpecImpl for Token<'a> {
    open spec fn obeys_eq_spec() -> bool {
        true
    }

    open spec fn eq_spec(&self, other: &Token<'a>) -> bool {
        self@ == other@
    }
}

} // verus!
