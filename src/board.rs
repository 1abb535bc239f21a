use std::collections::HashMap;
use vstd::prelude::*;

use crate::token::Token;

verus! {

broadcast use vstd::std_specs::hash::group_hash_axioms;

/// A cell of the 3x3 grid, numbered 1 to 9 row by row.
pub type Space = i32;

/// Which token stands on each space that has been played.
#[derive(Debug, Default)]
pub struct Board<'a> {
    state: HashMap<Space, Token<'a>>,
}

/// The result of a finished game: one token holds a whole line, or the grid is full without one.
#[derive(Debug, PartialEq, Eq)]
pub enum Outcome<T> {
    Winner(T),
    Draw,
}

/// Every space of the grid has a token on it.
pub open spec fn is_full(b: Map<Space, Seq<char>>) -> bool {
    forall|s: Space| 1 <= s <= 9 ==> #[trigger] b.contains_key(s)
}

/// The eight winning lines, rows first, then columns, then the two diagonals.
pub open spec fn line(i: int) -> (Space, Space, Space) {
    if i == 0 {
        (1, 2, 3)
    } else if i == 1 {
        (4, 5, 6)
    } else if i == 2 {
        (7, 8, 9)
    } else if i == 3 {
        (1, 4, 7)
    } else if i == 4 {
        (2, 5, 8)
    } else if i == 5 {
        (3, 6, 9)
    } else if i == 6 {
        (1, 5, 9)
    } else {
        (3, 5, 7)
    }
}

/// All three spaces of `l` hold `t`.
pub open spec fn holds_line(b: Map<Space, Seq<char>>, l: (Space, Space, Space), t: Seq<char>) -> bool {
    &&& b.contains_key(l.0) && b[l.0] == t
    &&& b.contains_key(l.1) && b[l.1] == t
    &&& b.contains_key(l.2) && b[l.2] == t
}

/// Some single token holds all three spaces of `l`.
pub open spec fn line_taken(b: Map<Space, Seq<char>>, l: (Space, Space, Space)) -> bool {
    b.contains_key(l.0) && holds_line(b, l, b[l.0])
}

/// The token of the first taken line at index `i` or later, in the order of `line`.
pub open spec fn winner_from(b: Map<Space, Seq<char>>, i: int) -> Option<Seq<char>>
    decreases 8 - i,
{
    if i < 0 || i >= 8 {
        None
    } else if line_taken(b, line(i)) {
        Some(b[line(i).0])
    } else {
        winner_from(b, i + 1)
    }
}

pub open spec fn winner_of(b: Map<Space, Seq<char>>) -> Option<Seq<char>> {
    winner_from(b, 0)
}

/// What the game stands at on board `b`: `None` while it is still in progress.
pub open spec fn outcome_of(b: Map<Space, Seq<char>>) -> Option<Outcome<Seq<char>>> {
    match winner_of(b) {
        Some(t) => Some(Outcome::Winner(t)),
        None => if is_full(b) {
            Some(Outcome::Draw)
        } else {
            None
        },
    }
}

/// An outcome as the labels of its tokens.
pub open spec fn outcome_view<'a>(r: Option<Outcome<Token<'a>>>) -> Option<Outcome<Seq<char>>> {
    match r {
        Some(Outcome::Winner(t)) => Some(Outcome::Winner(t@)),
        Some(Outcome::Draw) => Some(Outcome::Draw),
        None => None,
    }
}

fn line_at(i: usize) -> (l: (Space, Space, Space))
    requires
        i < 8,
    ensures
        l == line(i as int),
{
    if i == 0 {
        (1, 2, 3)
    } else if i == 1 {
        (4, 5, 6)
    } else if i == 2 {
        (7, 8, 9)
    } else if i == 3 {
        (1, 4, 7)
    } else if i == 4 {
        (2, 5, 8)
    } else if i == 5 {
        (3, 6, 9)
    } else if i == 6 {
        (1, 5, 9)
    } else {
        (3, 5, 7)
    }
}

proof fn lemma_winner_found(b: Map<Space, Seq<char>>, k: int, i: int)
    requires
        0 <= k <= i < 8,
        line_taken(b, line(i)),
        forall|j: int| k <= j < i ==> !line_taken(b, #[trigger] line(j)),
    ensures
        winner_from(b, k) == Some(b[line(i).0]),
    decreases i - k,
{
    if k < i {
        lemma_winner_found(b, k + 1, i);
    }
}

proof fn lemma_no_winner(b: Map<Space, Seq<char>>, k: int)
    requires
        0 <= k <= 8,
        forall|j: int| k <= j < 8 ==> !line_taken(b, #[trigger] line(j)),
    ensures
        winner_from(b, k) is None,
    decreases 8 - k,
{
    if k < 8 {
        lemma_no_winner(b, k + 1);
    }
}

/// When a single line is held whole by one token and no other line is held by any one
/// token, that token is the winner.
pub proof fn lemma_lone_line_wins<'a>(board: &Board<'a>, i: int, t: Seq<char>)
    requires
        0 <= i < 8,
        holds_line(board@, line(i), t),
        forall|j: int| 0 <= j < 8 && j != i ==> !line_taken(board@, #[trigger] line(j)),
    ensures
        outcome_of(board@) == Some(Outcome::Winner(t)),
{
    lemma_winner_found(board@, 0, i);
}

/// A full grid on which no line is held by one token is a draw.
pub proof fn lemma_full_without_line_is_draw<'a>(board: &Board<'a>)
    requires
        is_full(board@),
        forall|j: int| 0 <= j < 8 ==> !line_taken(board@, #[trigger] line(j)),
    ensures
        outcome_of(board@) == Some(Outcome::<Seq<char>>::Draw),
{
    lemma_no_winner(board@, 0);
}

/// With a space still empty and no line held by one token, the game goes on.
pub proof fn lemma_open_without_line_goes_on<'a>(board: &Board<'a>)
    requires
        exists|s: Space| 1 <= s <= 9 && !board@.contains_key(s),
        forall|j: int| 0 <= j < 8 ==> !line_taken(board@, #[trigger] line(j)),
    ensures
        outcome_of(board@) is None,
{
    lemma_no_winner(board@, 0);
}

/// The outcome depends on the board alone: two reports of the same board agree.
pub proof fn lemma_outcome_repeatable<'a>(
    board: &Board<'a>,
    first: Option<Outcome<Token<'a>>>,
    second: Option<Outcome<Token<'a>>>,
)
    requires
        outcome_view(first) == outcome_of(board@),
        outcome_view(second) == outcome_of(board@),
    ensures
        outcome_view(first) == outcome_view(second),
{
}

impl<'a> View for Board<'a> {
    type V = Map<Space, Seq<char>>;

    closed spec fn view(&self) -> Map<Space, Seq<char>> {
        self.state@.map_values(|t: Token<'a>| t@)
    }
}

impl<'a> Board<'a> {
    #[must_use]
    pub fn new() -> (b: Board<'a>)
        ensures
            b@ == Map::<Space, Seq<char>>::empty(),
    {
        let b = Board { state: HashMap::new() };
        proof {
            assert(b@ =~= Map::<Space, Seq<char>>::empty());
        }
        b
    }

    /// Places `token` on `space`, replacing whatever stood there.
    pub fn put(&mut self, space: Space, token: Token<'a>) -> (r: &mut Board<'a>)
        ensures
            r@ == old(self)@.insert(space, token@),
            *final(self) == *final(r),
    {
        let ghost before = self.state@;
        self.state.insert(space, token);
        proof {
            assert(self@ =~= before.map_values(|t: Token<'a>| t@).insert(space, token@));
        }
        self
    }

    pub fn get(&self, space: Space) -> (r: Option<Token<'a>>)
        ensures
            match r {
                Some(t) => self@.contains_key(space) && self@[space] == t@,
                None => !self@.contains_key(space),
            },
    {
        match self.state.get(&space) {
            Some(t) => Some(*t),
            None => None,
        }
    }

    /// Whether all nine spaces are taken, found by looking at each of them.
    pub fn full(&self) -> (r: bool)
        ensures
            r == is_full(self@),
    {
        let mut taken: usize = 0;
        let mut space: Space = 1;
        while space <= 9
            invariant
                1 <= space <= 10,
                taken <= space - 1,
                taken == space - 1 <==> forall|s: Space| 1 <= s < space ==> #[trigger] self@.contains_key(s),
            decreases 10 - space,
        {
            if self.get(space).is_some() {
                taken = taken + 1;
            }
            space = space + 1;
        }
        taken == 9
    }
    /// The token that holds all of line `l`, if one does.
    fn line_holder(&self, l: (Space, Space, Space)) -> (r: Option<Token<'a>>)
        ensures
            match r {
                Some(t) => line_taken(self@, l) && t@ == self@[l.0],
                None => !line_taken(self@, l),
            },
    {
        let first = self.get(l.0);
        let second = self.get(l.1);
        let third = self.get(l.2);
        match (first, second, third) {
            (Some(a), Some(b), Some(c)) => {
                if a == b && b == c {
                    Some(a)
                } else {
                    None
                }
            },
            _ => None,
        }
    }

    /// The winner of the first taken line in the order of `line`; else a draw when the
    /// grid is full; else `None`, the game goes on.
    pub fn outcome(&self) -> (r: Option<Outcome<Token<'a>>>)
        ensures
            outcome_view(r) == outcome_of(self@),
    {
        let mut i: usize = 0;
        while i < 8
            invariant
                i <= 8,
                winner_of(self@) == winner_from(self@, i as int),
            decreases 8 - i,
        {
            let l = line_at(i);
            match self.line_holder(l) {
                Some(t) => {
                    return Some(Outcome::Winner(t));
                },
                None => {},
            }
            i = i + 1;
        }
        if self.full() {
            Some(Outcome::Draw)
        } else {
            None
        }
    }
}

} // verus!
