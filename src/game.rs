use vstd::arithmetic::div_mod::lemma_small_mod;
use vstd::prelude::*;

use crate::board::{outcome_of, outcome_view, Board, Outcome, Space};
use crate::token::Token;

verus! {

/// A game that advances one turn at a time.
pub trait Game: Sized {
    /// How many turns the game has taken. An implementation that Verus checks must define
    /// it, since `turn` raises it by one; the default is there only so that implementations
    /// outside Verus may leave it out.
    open spec fn turns_taken(&self) -> nat {
        0
    }

    fn turn(&mut self) -> (r: &mut Self)
        ensures
            r.turns_taken() == old(self).turns_taken() + 1,
            *final(self) == *final(r),
    ;
}

/// The source of one player's moves.
pub trait Player {
    /// The space this player takes next, or `None` when it has no move to offer.
    fn next_space(&self) -> Option<Space>;
}

/// Tic-tac-toe on a board of its own, with players seated in turn order, each with its token.
pub struct TicTacToe<'a, P: Player> {
    board: Board<'a>,
    seats: Vec<(Token<'a>, P)>,
    current: usize,
    turns: Ghost<nat>,
}

impl<'a, P: Player> TicTacToe<'a, P> {
    /// The board as a map from space to the label of the token on it.
    pub closed spec fn board_view(&self) -> Map<Space, Seq<char>> {
        self.board@
    }

    /// The labels of the seats' tokens, in turn order.
    pub closed spec fn tokens(&self) -> Seq<Seq<char>> {
        self.seats@.map_values(|s: (Token<'a>, P)| s.0@)
    }

    /// The player in seat `i`.
    pub closed spec fn player(&self, i: int) -> P {
        self.seats@[i].1
    }

    /// How many times a seat has been asked for a move.
    pub closed spec fn turn_count(&self) -> nat {
        self.turns@
    }

    /// The seat whose turn it is.
    pub closed spec fn current(&self) -> int {
        if self.seats.len() == 0 {
            0
        } else {
            self.current as int % self.seats.len() as int
        }
    }

    /// The seat after `i`, back to the first after the last.
    pub open spec fn next_seat(&self, i: int) -> int {
        if i + 1 < self.tokens().len() {
            i + 1
        } else {
            0
        }
    }

    /// The state after the seat whose turn it is picks `choice`: its token goes on the
    /// chosen space and the turn passes on; without a choice nothing changes.
    pub open spec fn after_choice(&self, next: &Self, choice: Option<Space>) -> bool {
        &&& next.tokens() == self.tokens()
        &&& forall|i: int| 0 <= i < self.tokens().len() ==> next.player(i) == self.player(i)
        &&& if self.tokens().len() == 0 || choice is None {
            &&& next.board_view() == self.board_view()
            &&& next.current() == self.current()
        } else {
            &&& next.board_view() == self.board_view().insert(
                choice->Some_0,
                self.tokens()[self.current()],
            )
            &&& next.current() == self.next_seat(self.current())
        }
    }

    pub fn new(board: Board<'a>, seats: Vec<(Token<'a>, P)>) -> (g: Self)
        ensures
            g.board_view() == board@,
            g.tokens() == seats@.map_values(|s: (Token<'a>, P)| s.0@),
            g.current() == 0,
            forall|i: int| 0 <= i < seats.len() ==> g.player(i) == seats@[i].1,
            g.turn_count() == 0,
    {
        proof {
            if seats.len() > 0 {
                lemma_small_mod(0, seats.len() as nat);
            }
        }
        TicTacToe { board, seats, current: 0, turns: Ghost(0) }
    }

    pub fn board(&self) -> (b: &Board<'a>)
        ensures
            b@ == self.board_view(),
    {
        &self.board
    }

    /// The outcome of the game so far, from the board as it stands.
    pub fn outcome(&self) -> (r: Option<Outcome<Token<'a>>>)
        ensures
            outcome_view(r) == outcome_of(self.board_view()),
    {
        self.board.outcome()
    }

    /// Plays `choice` for the seat whose turn it is.
    pub fn apply_choice(&mut self, choice: Option<Space>)
        ensures
            old(self).after_choice(final(self), choice),
            final(self).turn_count() == old(self).turn_count(),
    {
        if self.seats.len() == 0 {
            return;
        }
        match choice {
            Some(space) => {
                let seat = self.current % self.seats.len();
                let token = self.seats[seat].0;
                self.board.put(space, token);
                self.current = if seat + 1 < self.seats.len() {
                    seat + 1
                } else {
                    0
                };
                proof {
                    lemma_small_mod(self.current as nat, self.seats.len() as nat);
                }
            },
            None => {},
        }
    }

    /// Asks the player in the seat whose turn it is for a space, and plays its answer.
    pub fn make_move(&mut self) -> (r: &mut Self)
        ensures
            exists|choice: Option<Space>|
                {
                    &&& old(self).after_choice(r, choice)
                    &&& old(self).tokens().len() > 0 ==> call_ensures(
                        P::next_space,
                        (&old(self).player(old(self).current()),),
                        choice,
                    )
                },
            r.turn_count() == old(self).turn_count() + 1,
            *final(self) == *final(r),
    {
        let ghost before = *self;
        let mut choice: Option<Space> = None;
        if self.seats.len() > 0 {
            choice = self.seats[self.current % self.seats.len()].1.next_space();
            self.apply_choice(choice);
        }
        self.turns = Ghost(self.turns@ + 1);
        assert(before.after_choice(self, choice));
        self
    }
}

impl<'a, P: Player> Game for TicTacToe<'a, P> {
    open spec fn turns_taken(&self) -> nat {
        self.turn_count()
    }

    /// Takes one turn: see `make_move`.
    fn turn(&mut self) -> (r: &mut Self)
        ensures
            exists|choice: Option<Space>|
                {
                    &&& old(self).after_choice(r, choice)
                    &&& old(self).tokens().len() > 0 ==> call_ensures(
                        P::next_space,
                        (&old(self).player(old(self).current()),),
                        choice,
                    )
                },
    {
        self.make_move()
    }
}

} // verus!
