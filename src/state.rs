//! The model of the game's state and the transition that each command makes.

use vstd::prelude::*;

use crate::messages::RandomResult;
use crate::screen::{
    Command, EndMenuItem, GameItem, GameScreen, MainMenuItem, OptionsMenuItem, Screen, is_text_entry,
};
use crate::validate::{input_accepted, number_value, range_bounds};
use crate::viewport::{backward_spec, forward_spec, window_holds};

verus! {

/// What the game holds, as mathematical values.
pub struct AppView {
    /// The game is to end.
    pub exit: bool,
    /// The active screen.
    pub screen: Screen,
    /// The rounds guessed right.
    pub score: u8,
    /// The typed range.
    pub range: Seq<char>,
    /// The typed guess.
    pub guess: Seq<char>,
    /// The outcome of the last round, once it is resolved.
    pub result: Option<RandomResult>,
    /// The model that requests go to.
    pub model: Seq<char>,
    /// The catalogue of models.
    pub models: Seq<Seq<char>>,
    /// The index of the highlighted model.
    pub highlighted: nat,
    /// The number of models hidden above the visible window.
    pub offset: nat,
    /// The number of rows of the visible window.
    pub capacity: nat,
    /// The last submission was refused.
    pub invalid: bool,
    /// A round is being resolved.
    pub processing: bool,
    /// The text that the service answered with.
    pub output: Seq<char>,
}

/// What a command leaves for the caller to do.
#[derive(Clone, Copy, Debug, PartialEq, Eq, Structural)]
pub enum Action {
    /// Nothing.
    Nothing,
    /// Fetch the catalogue of models and hand it to `App::enter_model_menu`.
    FetchModels,
}

/// The invariant of the game's state.
pub open spec fn app_invariant(v: AppView) -> bool {
    &&& v.capacity >= 1
    &&& v.models.len() > 0 ==> window_holds(v.models.len(), v.highlighted, v.offset, v.capacity)
    &&& v.models.len() == 0 ==> v.screen != Screen::ModelMenu
    &&& v.processing ==> is_text_entry(v.screen) && input_accepted(v.range, v.guess)
    &&& v.screen is InGame && (v.screen->InGame_0 is EndMenu) ==> v.result is Some
}

/// A fresh round: the typing screen with the focus on the range, the two
/// fields empty and no outcome.
pub open spec fn new_round(v: AppView) -> AppView {
    AppView {
        screen: Screen::InGame(GameScreen::Game(GameItem::Range)),
        range: Seq::empty(),
        guess: Seq::empty(),
        result: None,
        ..v
    }
}

/// The state with another screen.
pub open spec fn on_screen(v: AppView, screen: Screen) -> AppView {
    AppView { screen, ..v }
}

/// The effect of the select command.
pub open spec fn select_step(v: AppView) -> (AppView, Action) {
    match v.screen {
        Screen::MainMenu(MainMenuItem::Play) => (new_round(v), Action::Nothing),
        Screen::MainMenu(MainMenuItem::Options) => (
            on_screen(v, Screen::OptionsMenu(OptionsMenuItem::Model)),
            Action::Nothing,
        ),
        Screen::MainMenu(MainMenuItem::Exit) => (AppView { exit: true, ..v }, Action::Nothing),
        Screen::OptionsMenu(OptionsMenuItem::Model) => (v, Action::FetchModels),
        Screen::OptionsMenu(OptionsMenuItem::Return) => (
            on_screen(v, Screen::MainMenu(MainMenuItem::Play)),
            Action::Nothing,
        ),
        Screen::ModelMenu => (AppView { model: v.models[v.highlighted as int], ..v }, Action::Nothing),
        Screen::InGame(GameScreen::EndMenu(EndMenuItem::Repeat)) => (new_round(v), Action::Nothing),
        Screen::InGame(GameScreen::EndMenu(EndMenuItem::Exit)) => (
            AppView { exit: true, ..v },
            Action::Nothing,
        ),
        Screen::InGame(GameScreen::Game(_)) => (v, Action::Nothing),
    }
}

/// The effect of the down command.
pub open spec fn down_step(v: AppView) -> AppView {
    match v.screen {
        Screen::MainMenu(MainMenuItem::Play) => on_screen(v, Screen::MainMenu(MainMenuItem::Options)),
        Screen::MainMenu(MainMenuItem::Options) => on_screen(v, Screen::MainMenu(MainMenuItem::Exit)),
        Screen::MainMenu(MainMenuItem::Exit) => on_screen(v, Screen::MainMenu(MainMenuItem::Play)),
        Screen::OptionsMenu(OptionsMenuItem::Model) => on_screen(
            v,
            Screen::OptionsMenu(OptionsMenuItem::Return),
        ),
        Screen::ModelMenu => {
            let next = forward_spec(v.models.len(), v.highlighted, v.offset, v.capacity);
            AppView { highlighted: next.0, offset: next.1, ..v }
        },
        Screen::InGame(GameScreen::EndMenu(EndMenuItem::Repeat)) => on_screen(
            v,
            Screen::InGame(GameScreen::EndMenu(EndMenuItem::Exit)),
        ),
        _ => v,
    }
}

/// The effect of the up command.
pub open spec fn up_step(v: AppView) -> AppView {
    match v.screen {
        Screen::MainMenu(MainMenuItem::Play) => on_screen(v, Screen::MainMenu(MainMenuItem::Exit)),
        Screen::MainMenu(MainMenuItem::Options) => on_screen(v, Screen::MainMenu(MainMenuItem::Play)),
        Screen::MainMenu(MainMenuItem::Exit) => on_screen(v, Screen::MainMenu(MainMenuItem::Options)),
        Screen::OptionsMenu(OptionsMenuItem::Return) => on_screen(
            v,
            Screen::OptionsMenu(OptionsMenuItem::Model),
        ),
        Screen::ModelMenu => {
            let next = backward_spec(v.highlighted, v.offset);
            AppView { highlighted: next.0, offset: next.1, ..v }
        },
        Screen::InGame(GameScreen::EndMenu(EndMenuItem::Exit)) => on_screen(
            v,
            Screen::InGame(GameScreen::EndMenu(EndMenuItem::Repeat)),
        ),
        _ => v,
    }
}

/// The effect of the back command.
pub open spec fn back_step(v: AppView) -> AppView {
    match v.screen {
        Screen::ModelMenu => on_screen(v, Screen::OptionsMenu(OptionsMenuItem::Model)),
        Screen::OptionsMenu(OptionsMenuItem::Model) => on_screen(v, Screen::MainMenu(MainMenuItem::Play)),
        _ => v,
    }
}

/// The effect of a text-editing command on the typing screen, where the
/// focus is on `focus`.
pub open spec fn edit_step(v: AppView, focus: GameItem, cmd: Command) -> AppView {
    match cmd {
        Command::Append(c) => match focus {
            GameItem::Range => AppView { range: v.range.push(c), ..v },
            GameItem::Input => AppView { guess: v.guess.push(c), ..v },
        },
        Command::Delete => match focus {
            GameItem::Range => if v.range.len() > 0 {
                AppView { range: v.range.drop_last(), ..v }
            } else {
                v
            },
            GameItem::Input => if v.guess.len() > 0 {
                AppView { guess: v.guess.drop_last(), ..v }
            } else {
                v
            },
        },
        Command::SwitchFocus => match focus {
            GameItem::Range => on_screen(v, Screen::InGame(GameScreen::Game(GameItem::Input))),
            GameItem::Input => on_screen(v, Screen::InGame(GameScreen::Game(GameItem::Range))),
        },
        Command::Confirm => if input_accepted(v.range, v.guess) {
            AppView { invalid: false, processing: true, ..v }
        } else {
            AppView { invalid: true, ..v }
        },
        _ => v,
    }
}

/// The effect of a text-editing command: only on the typing screen, and
/// only while no request is processing.
pub open spec fn text_step(v: AppView, cmd: Command) -> AppView {
    match v.screen {
        Screen::InGame(GameScreen::Game(focus)) => if v.processing {
            v
        } else {
            edit_step(v, focus, cmd)
        },
        _ => v,
    }
}

/// The state after a command, and what is left for the caller to do.
pub open spec fn step(v: AppView, cmd: Command) -> (AppView, Action) {
    match cmd {
        Command::Quit => (AppView { exit: true, ..v }, Action::Nothing),
        Command::Select => select_step(v),
        Command::Down => (down_step(v), Action::Nothing),
        Command::Up => (up_step(v), Action::Nothing),
        Command::Back => (back_step(v), Action::Nothing),
        _ => (text_step(v, cmd), Action::Nothing),
    }
}

/// The lower bound, the upper bound and the guess of an accepted round.
pub open spec fn round_numbers(v: AppView) -> (nat, nat, nat) {
    (number_value(range_bounds(v.range).0), number_value(range_bounds(v.range).1), number_value(v.guess))
}

/// The outcome of a round in which `drawn` was drawn and `guess` guessed.
pub open spec fn outcome(guess: nat, drawn: nat) -> RandomResult {
    if guess == drawn {
        RandomResult::Correct
    } else {
        RandomResult::Incorrect
    }
}

/// The score after a round with `result`: one more for a right guess, held
/// at the largest value a `u8` has.
pub open spec fn scored(score: u8, result: RandomResult) -> u8 {
    if result == RandomResult::Correct && score < u8::MAX {
        (score + 1) as u8
    } else {
        score
    }
}

/// Every command keeps the invariant.
pub proof fn lemma_step_keeps_invariant(v: AppView, cmd: Command)
    requires
        app_invariant(v),
    ensures
        app_invariant(step(v, cmd).0),
{
}

/// Transitions are deterministic: the same command applied to the same state
/// gives the same state and leaves the same action.
pub proof fn lemma_step_deterministic(v: AppView, w: AppView, cmd: Command)
    requires
        v == w,
    ensures
        step(v, cmd) == step(w, cmd),
        step(v, cmd).0.screen == step(w, cmd).0.screen,
{
}

/// The quit command ends the game from every screen, and changes nothing
/// else.
pub proof fn lemma_quit_exits(v: AppView)
    ensures
        step(v, Command::Quit).0.exit,
        step(v, Command::Quit).0 == (AppView { exit: true, ..v }),
        step(v, Command::Quit).1 == Action::Nothing,
{
}

} // verus!
