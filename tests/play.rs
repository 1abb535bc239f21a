use std::cell::RefCell;

use tictactoe::game::Game;
use tictactoe::{play, RunContext, UI};

struct TestContext {
    turns: RefCell<i32>,
}

impl RunContext for TestContext {
    fn run(&self) -> bool {
        if *self.turns.borrow() > 0 {
            *self.turns.borrow_mut() -= 1;
            true
        } else {
            false
        }
    }
}

struct TestUI {
    log: Vec<String>,
}

impl UI for TestUI {
    fn update(&mut self) -> &mut Self {
        self.log.push(String::from("update"));
        self
    }
}

struct TestGame {
    log: Vec<String>,
}

impl Game for TestGame {
    fn turn(&mut self) -> &mut Self {
        self.log.push(String::from("turn"));
        self
    }
}

#[test]
fn it_will_take_turns_in_the_run_context() {
    let mut game = TestGame { log: vec![] };

    let mut ui = TestUI { log: vec![] };

    play(&mut game, &mut ui, &TestContext {
            turns: RefCell::new(2),
        });

    assert_eq!(game.log.clone(), ["turn", "turn"]);
}

#[test]
fn it_will_display_game_to_the_user() {
    let mut game = TestGame { log: vec![] };

    let mut ui = TestUI { log: vec![] };

    play(&mut game, &mut ui, &TestContext {
            turns: RefCell::new(2),
        });

    assert_eq!(ui.log.join(" "), "update update update");
}

#[test]
fn no_rounds_still_shows_the_game_once() {
    let mut game = TestGame { log: vec![] };
    let mut ui = TestUI { log: vec![] };
    play(&mut game, &mut ui, &TestContext {
            turns: RefCell::new(0),
        });
    assert!(game.log.is_empty());
    assert_eq!(ui.log, ["update"]);
}
