use vstd::prelude::*;

pub mod board;
pub mod game;
pub mod token;

use crate::game::Game;

verus! {

/// Decides, round after round, whether play goes on.
pub trait RunContext {
    fn run(&self) -> bool;
}

/// Shows the game to the user.
pub trait UI: Sized {
    /// How many times the game has been shown. An implementation that Verus checks must
    /// define it, since `update` raises it by one; the default is there only so that
    /// implementations outside Verus may leave it out.
    open spec fn shown(&self) -> nat {
        0
    }

    fn update(&mut self) -> (r: &mut Self)
        ensures
            r.shown() == old(self).shown() + 1,
            *final(self) == *final(r),
    ;
}

/// Shows the game, then, for as long as the context grants another round, takes a turn
/// and shows the game again: the game is shown once more than it takes turns, and play
/// stops at the context's first refusal. Every loop here must be seen to end, so a context
/// is granted at most `u64::MAX` rounds.
pub fn play<G: Game, U: UI, C: RunContext>(game: &mut G, ui: &mut U, context: &C)
    ensures
        final(game).turns_taken() >= old(game).turns_taken(),
        final(game).turns_taken() - old(game).turns_taken() <= u64::MAX,
        final(ui).shown() == old(ui).shown() + 1 + (final(game).turns_taken() - old(
            game,
        ).turns_taken()),
        final(game).turns_taken() - old(game).turns_taken() < u64::MAX ==> call_ensures(
            C::run,
            (context,),
            false,
        ),
        final(game).turns_taken() > old(game).turns_taken() ==> call_ensures(
            C::run,
            (context,),
            true,
        ),
{
    ui.update();
    let mut rounds: u64 = 0;
    loop
        invariant
            game.turns_taken() == old(game).turns_taken() + rounds,
            ui.shown() == old(ui).shown() + 1 + rounds,
            rounds > 0 ==> call_ensures(C::run, (context,), true),
        ensures
            game.turns_taken() == old(game).turns_taken() + rounds,
            ui.shown() == old(ui).shown() + 1 + rounds,
            rounds > 0 ==> call_ensures(C::run, (context,), true),
            rounds < u64::MAX ==> call_ensures(C::run, (context,), false),
        decreases u64::MAX - rounds,
    {
        if rounds == u64::MAX {
            break;
        }
        if !context.run() {
            break;
        }
        game.turn();
        ui.update();
        rounds = rounds + 1;
    }
}

} // verus!
