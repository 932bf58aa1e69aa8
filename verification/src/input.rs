//! What the player's keys do to the game.

use crate::constant::{MOVE_SPEED_X, MOVE_SPEED_Y};
use crate::game_model::GameView;
use crate::game_state::GameState;
use vstd::prelude::*;

verus! {

/// A key of the keyboard, as far as the game tells keys apart.
#[derive(Clone, Copy, Debug, PartialEq, Eq, Structural)]
pub enum Key {
    W,
    A,
    S,
    D,
    Q,
    Esc,
    Space,
    Other,
}

/// What the player can ask of the game.
#[derive(Clone, Copy, Debug, PartialEq, Eq, Structural)]
pub enum Command {
    MoveHorizontal(i32),
    MoveVertical(i32),
    ToggleAutoFire,
    Quit,
}

impl Command {
    /// What a key asks for at the moment it is pressed.
    pub open spec fn on_press(key: Key) -> Option<Command> {
        match key {
            Key::Esc | Key::Q => Some(Command::Quit),
            Key::Space => Some(Command::ToggleAutoFire),
            _ => None,
        }
    }

    /// What a key asks for in every frame in which it is held down.
    pub open spec fn while_down(key: Key) -> Option<Command> {
        match key {
            Key::W => Some(Command::MoveVertical((-MOVE_SPEED_Y) as i32)),
            Key::S => Some(Command::MoveVertical(MOVE_SPEED_Y)),
            Key::A => Some(Command::MoveHorizontal((-MOVE_SPEED_X) as i32)),
            Key::D => Some(Command::MoveHorizontal(MOVE_SPEED_X)),
            _ => None,
        }
    }

    pub fn for_pressed(key: Key) -> (r: Option<Command>)
        ensures
            r == Command::on_press(key),
    {
        match key {
            Key::Esc | Key::Q => Some(Command::Quit),
            Key::Space => Some(Command::ToggleAutoFire),
            _ => None,
        }
    }

    pub fn for_held(key: Key) -> (r: Option<Command>)
        ensures
            r == Command::while_down(key),
    {
        match key {
            Key::W => Some(Command::MoveVertical(-MOVE_SPEED_Y)),
            Key::S => Some(Command::MoveVertical(MOVE_SPEED_Y)),
            Key::A => Some(Command::MoveHorizontal(-MOVE_SPEED_X)),
            Key::D => Some(Command::MoveHorizontal(MOVE_SPEED_X)),
            _ => None,
        }
    }
}

/// The game after `command`, if it is one. To quit changes nothing in the
/// game: it is for the caller to stop.
pub open spec fn commanded(game: GameView, command: Option<Command>) -> GameView {
    match command {
        Some(Command::MoveHorizontal(dx)) => game.move_ship_x(dx),
        Some(Command::MoveVertical(dy)) => game.move_ship_y(dy),
        Some(Command::ToggleAutoFire) => game.toggle_auto_shoot(),
        Some(Command::Quit) => game,
        None => game,
    }
}

/// The game after the keys `keys` were pressed, one after another.
pub open spec fn after_presses(game: GameView, keys: Seq<Key>) -> GameView
    decreases keys.len(),
{
    if keys.len() == 0 {
        game
    } else {
        commanded(after_presses(game, keys.drop_last()), Command::on_press(keys.last()))
    }
}

/// The game after a frame in which the keys `keys` were held down, taken one
/// after another.
pub open spec fn after_holds(game: GameView, keys: Seq<Key>) -> GameView
    decreases keys.len(),
{
    if keys.len() == 0 {
        game
    } else {
        commanded(after_holds(game, keys.drop_last()), Command::while_down(keys.last()))
    }
}

/// Does one of the pressed keys ask to quit?
pub open spec fn asks_to_quit(keys: Seq<Key>) -> bool {
    exists|i: int| 0 <= i < keys.len() && Command::on_press(#[trigger] keys[i]) == Some(Command::Quit)
}

/// Carries out `command`, if it is one. Returns whether it asks to quit.
pub fn apply_command(game_state: &mut GameState, command: Option<Command>) -> (quit: bool)
    ensures
        final(game_state)@ == commanded(old(game_state)@, command),
        quit == (command == Some(Command::Quit)),
        old(game_state)@.wf() ==> final(game_state)@.wf(),
{
    match command {
        Some(Command::MoveHorizontal(dx)) => {
            game_state.move_ship_x(dx);
            false
        },
        Some(Command::MoveVertical(dy)) => {
            game_state.move_ship_y(dy);
            false
        },
        Some(Command::ToggleAutoFire) => {
            game_state.toggle_auto_shoot();
            false
        },
        Some(Command::Quit) => true,
        None => false,
    }
}

/// Carries out what the player asks for in one frame: first what the keys
/// pressed since the last frame ask for, then what the keys held down ask
/// for. Returns whether the player asks to quit.
pub fn handle_user_input(game_state: &mut GameState, pressed: &Vec<Key>, down: &Vec<Key>) -> (quit:
    bool)
    ensures
        final(game_state)@ == after_holds(after_presses(old(game_state)@, pressed@), down@),
        quit == asks_to_quit(pressed@),
        old(game_state)@.wf() ==> final(game_state)@.wf(),
{
    let mut quit: bool = false;
    let mut i: usize = 0;
    while i < pressed.len()
        invariant
            i <= pressed@.len(),
            game_state@ == after_presses(old(game_state)@, pressed@.take(i as int)),
            quit == asks_to_quit(pressed@.take(i as int)),
            old(game_state)@.wf() ==> game_state@.wf(),
        decreases pressed@.len() - i,
    {
        let asked: bool = apply_command(game_state, Command::for_pressed(pressed[i]));
        proof {
            let before = pressed@.take(i as int);
            let next = pressed@.take(i + 1);
            assert(next.drop_last() =~= before);
            assert(next.last() == pressed@[i as int]);
            if asks_to_quit(before) {
                let w = choose|w: int|
                    0 <= w < before.len() && Command::on_press(#[trigger] before[w]) == Some(
                        Command::Quit,
                    );
                assert(next[w] == before[w]);
            }
            if asked {
                assert(next[i as int] == pressed@[i as int]);
            }
            if asks_to_quit(next) {
                let w = choose|w: int|
                    0 <= w < next.len() && Command::on_press(#[trigger] next[w]) == Some(
                        Command::Quit,
                    );
                if w < i {
                    assert(before[w] == next[w]);
                }
            }
        }
        quit = quit || asked;
        i += 1;
    }
    assert(pressed@.take(pressed@.len() as int) =~= pressed@);
    let ghost pressed_done = game_state@;
    let mut k: usize = 0;
    while k < down.len()
        invariant
            k <= down@.len(),
            game_state@ == after_holds(pressed_done, down@.take(k as int)),
            old(game_state)@.wf() ==> game_state@.wf(),
        decreases down@.len() - k,
    {
        apply_command(game_state, Command::for_held(down[k]));
        proof {
            let next = down@.take(k + 1);
            assert(next.drop_last() =~= down@.take(k as int));
            assert(next.last() == down@[k as int]);
        }
        k += 1;
    }
    assert(down@.take(down@.len() as int) =~= down@);
    quit
}

} // verus!
