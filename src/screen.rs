//! Where the player is, and the commands that key presses stand for.

use vstd::prelude::*;

verus! {

/// The items of the main menu.
#[derive(Clone, Copy, Debug, PartialEq, Eq, Structural)]
pub enum MainMenuItem {
    /// Start a round.
    Play,
    /// Open the options menu.
    Options,
    /// Leave the game.
    Exit,
}

/// The items of the options menu.
#[derive(Clone, Copy, Debug, PartialEq, Eq, Structural)]
pub enum OptionsMenuItem {
    /// Open the list of models.
    Model,
    /// Go back to the main menu.
    Return,
}

/// The two text fields of a round.
#[derive(Clone, Copy, Debug, PartialEq, Eq, Structural)]
pub enum GameItem {
    /// The range, written `n..m`.
    Range,
    /// The guess, one number.
    Input,
}

/// The items of the menu shown once a round is over.
#[derive(Clone, Copy, Debug, PartialEq, Eq, Structural)]
pub enum EndMenuItem {
    /// Play another round.
    Repeat,
    /// Leave the game.
    Exit,
}

/// The two views of a round: typing, then the result.
#[derive(Clone, Copy, Debug, PartialEq, Eq, Structural)]
pub enum GameScreen {
    /// Typing the range and the guess, with the focus on one field.
    Game(GameItem),
    /// The result and the question whether to play again.
    EndMenu(EndMenuItem),
}

/// The screen that is active; exactly one is at any time.
#[derive(Clone, Copy, Debug, PartialEq, Eq, Structural)]
pub enum Screen {
    /// The main menu, with the highlighted item.
    MainMenu(MainMenuItem),
    /// The options menu, with the highlighted item.
    OptionsMenu(OptionsMenuItem),
    /// A round.
    InGame(GameScreen),
    /// The list of models to choose from.
    ModelMenu,
}

/// A key press, as far as the game tells keys apart.
#[derive(Clone, Copy, Debug, PartialEq, Eq, Structural)]
pub enum Key {
    /// A printable character.
    Char(char),
    /// The tab key.
    Tab,
    /// The backspace key.
    Backspace,
    /// The enter key.
    Enter,
    /// Any other key.
    Other,
}

/// What a key press asks of the game.
#[derive(Clone, Copy, Debug, PartialEq, Eq, Structural)]
pub enum Command {
    /// Leave the game.
    Quit,
    /// Move the highlight up.
    Up,
    /// Move the highlight down.
    Down,
    /// Pick the highlighted item.
    Select,
    /// Go back one screen.
    Back,
    /// Type a character into the focused field.
    Append(char),
    /// Erase the last character of the focused field.
    Delete,
    /// Move the focus to the other field.
    SwitchFocus,
    /// Submit the range and the guess.
    Confirm,
}

/// The screen on which the range and the guess are typed.
pub open spec fn is_text_entry(screen: Screen) -> bool {
    screen matches Screen::InGame(GameScreen::Game(_))
}

/// The command that a key stands for on a screen, given whether a request is
/// being processed.
pub open spec fn command_of(key: Key, screen: Screen, processing: bool) -> Option<Command> {
    let typing = is_text_entry(screen) && !processing;
    match key {
        Key::Char(c) => {
            if c == 'q' {
                Some(Command::Quit)
            } else if c == 'k' {
                Some(Command::Up)
            } else if c == 'j' {
                Some(Command::Down)
            } else if c == 'l' {
                Some(Command::Select)
            } else if c == 'h' {
                Some(Command::Back)
            } else if typing {
                Some(Command::Append(c))
            } else {
                None
            }
        },
        Key::Tab => if typing {
            Some(Command::SwitchFocus)
        } else {
            None
        },
        Key::Backspace => if typing {
            Some(Command::Delete)
        } else {
            None
        },
        Key::Enter => if typing {
            Some(Command::Confirm)
        } else {
            None
        },
        Key::Other => None,
    }
}

/// Turns a key press into a command. The letters `q`, `k`, `j`, `l` and `h`
/// quit, move up, move down, select and go back on every screen; other
/// characters, tab, backspace and enter edit the round's text and count
/// only while it is being typed and no request is processing.
pub fn classify(key: Key, screen: Screen, processing: bool) -> (r: Option<Command>)
    ensures
        r == command_of(key, screen, processing),
{
    let typing = match screen {
        Screen::InGame(GameScreen::Game(_)) => !processing,
        _ => false,
    };
    match key {
        Key::Char(c) => {
            if c == 'q' {
                Some(Command::Quit)
            } else if c == 'k' {
                Some(Command::Up)
            } else if c == 'j' {
                Some(Command::Down)
            } else if c == 'l' {
                Some(Command::Select)
            } else if c == 'h' {
                Some(Command::Back)
            } else if typing {
                Some(Command::Append(c))
            } else {
                None
            }
        },
        Key::Tab => if typing {
            Some(Command::SwitchFocus)
        } else {
            None
        },
        Key::Backspace => if typing {
            Some(Command::Delete)
        } else {
            None
        },
        Key::Enter => if typing {
            Some(Command::Confirm)
        } else {
            None
        },
        Key::Other => None,
    }
}

/// The two menus drawn alike, with the number of items each shows.
#[derive(Clone, Copy, Debug, PartialEq, Eq, Structural)]
pub enum MenuType {
    /// The main menu.
    MainMenu(u8),
    /// The options menu.
    OptionsMenu(u8),
}

impl MenuType {
    /// The title of the menu.
    pub fn repr(&self) -> (r: &'static str)
        ensures
            self is MainMenu ==> r@ == "Main menu"@,
            self is OptionsMenu ==> r@ == "Options menu"@,
    {
        match *self {
            MenuType::MainMenu(_) => "Main menu",
            MenuType::OptionsMenu(_) => "Options menu",
        }
    }
}

} // verus!
