//! The game itself: its state, the commands that change it, and the steps of
//! a round's resolution.

use vstd::prelude::*;

use crate::cli::Cli;
use crate::messages::{LLM_INPUT, RandomResult, Request, Role, outcome_word};
use crate::random::draw_between;
use crate::screen::{
    Command, EndMenuItem, GameItem, GameScreen, Key, MainMenuItem, OptionsMenuItem, Screen, classify,
    command_of,
};
use crate::state::{
    AppView, Action, app_invariant, back_step, down_step, edit_step, new_round, outcome,
    round_numbers, scored, select_step, step, up_step,
};
use crate::validate::{read_input, validate_input};
use crate::viewport::{advance_backward, advance_forward};

verus! {

/// The model that requests go to where the command line names none.
pub const DEFAULT_MODEL: &'static str = "qwen/qwen3-32b:free";

/// One row of the model list as drawn.
pub struct ModelRow {
    /// The name of the model.
    pub id: String,
    /// The row carries the highlight.
    pub highlighted: bool,
    /// Requests go to this model.
    pub chosen: bool,
}

/// The number of rows that the model list shows.
pub open spec fn row_count(v: AppView) -> nat {
    if v.models.len() == 0 {
        0
    } else if v.models.len() - v.offset < v.capacity {
        (v.models.len() - v.offset) as nat
    } else {
        v.capacity
    }
}

/// The direction in which the highlight of the model list moves.
#[derive(Clone, Copy, Debug, PartialEq, Eq, Structural)]
pub enum ModelMenuDirection {
    /// Toward the top of the list.
    Up,
    /// Toward the bottom of the list.
    Down,
}

/// The ways in which a text field is edited.
#[derive(Clone, Copy, Debug, PartialEq, Eq, Structural)]
pub enum OperationType {
    /// A character is typed.
    Addition,
    /// The last character is erased.
    Deletion,
    /// The focus moves to the other field.
    SwitchFocus,
}

/// The state of the game, owned by the loop that runs it.
pub struct App {
    exit: bool,
    screen: Screen,
    score: u8,
    range_input: Vec<char>,
    input: Vec<char>,
    result: Option<RandomResult>,
    model: String,
    models: Vec<String>,
    model_view_selected: usize,
    model_view_offset: usize,
    model_view_capacity: usize,
    api_key: String,
    extra_line_help: bool,
    processing_request: bool,
    rng: fastrand::Rng,
    chat_completion_output: String,
}

impl View for App {
    type V = AppView;

    closed spec fn view(&self) -> AppView {
        AppView {
            exit: self.exit,
            screen: self.screen,
            score: self.score,
            range: self.range_input@,
            guess: self.input@,
            result: self.result,
            model: self.model@,
            models: self.models@.map_values(|s: String| s@),
            highlighted: self.model_view_selected as nat,
            offset: self.model_view_offset as nat,
            capacity: self.model_view_capacity as nat,
            invalid: self.extra_line_help,
            processing: self.processing_request,
            output: self.chat_completion_output@,
        }
    }
}

impl App {
    /// The state is well formed.
    pub open spec fn wf(&self) -> bool {
        app_invariant(self@)
    }

    /// The game as it starts: the main menu with `Play` highlighted, an
    /// empty round, no catalogue, and requests going to the model that `cli`
    /// names, or to `DEFAULT_MODEL`.
    pub fn new(cli: Cli, rng: fastrand::Rng) -> (r: App)
        ensures
            r.wf(),
            r@.exit == false,
            r@.screen == Screen::MainMenu(MainMenuItem::Play),
            r@.score == 0,
            r@.range.len() == 0,
            r@.guess.len() == 0,
            r@.result is None,
            cli.model matches Some(m) ==> r@.model == m@,
            cli.model is None ==> r@.model == DEFAULT_MODEL@,
            r@.models.len() == 0,
            r@.highlighted == 0,
            r@.offset == 0,
            r@.capacity == 1,
            r@.invalid == false,
            r@.processing == false,
            r@.output.len() == 0,
            r.api_key_spec() == cli.api_key,
    {
        let model = match cli.model {
            Some(m) => m,
            None => String::from_str(DEFAULT_MODEL),
        };
        App {
            exit: false,
            screen: Screen::MainMenu(MainMenuItem::Play),
            score: 0,
            range_input: Vec::new(),
            input: Vec::new(),
            result: None,
            model,
            models: Vec::new(),
            model_view_selected: 0,
            model_view_offset: 0,
            model_view_capacity: 1,
            api_key: cli.api_key,
            extra_line_help: false,
            processing_request: false,
            rng,
            chat_completion_output: String::new(),
        }
    }
    /// Moves the highlight of the model list one row, scrolling the window
    /// where the highlight would leave it.
    fn handle_model_menu_updates(&mut self, direction: ModelMenuDirection)
        requires
            old(self).wf(),
            old(self)@.screen == Screen::ModelMenu,
        ensures
            direction == ModelMenuDirection::Down ==> final(self)@ == down_step(old(self)@),
            direction == ModelMenuDirection::Up ==> final(self)@ == up_step(old(self)@),
    {
        let len = self.models.len();
        let next = match direction {
            ModelMenuDirection::Down => advance_forward(
                len,
                self.model_view_selected,
                self.model_view_offset,
                self.model_view_capacity,
            ),
            ModelMenuDirection::Up => advance_backward(
                len,
                self.model_view_selected,
                self.model_view_offset,
                self.model_view_capacity,
            ),
        };
        self.model_view_selected = next.0;
        self.model_view_offset = next.1;
    }

    /// Starts a round: the typing screen with the focus on the range, and
    /// the fields and the outcome cleared.
    fn start_round(&mut self)
        ensures
            final(self)@ == new_round(old(self)@),
    {
        self.screen = Screen::InGame(GameScreen::Game(GameItem::Range));
        self.range_input = Vec::new();
        self.input = Vec::new();
        self.result = None;
        assert(final(self)@.range =~= Seq::<char>::empty());
        assert(final(self)@.guess =~= Seq::<char>::empty());
    }

    /// Applies the select command.
    fn handle_l_input(&mut self) -> (r: Action)
        requires
            old(self).wf(),
        ensures
            (final(self)@, r) == select_step(old(self)@),
    {
        match self.screen {
            Screen::MainMenu(MainMenuItem::Play) => {
                self.start_round();
            },
            Screen::MainMenu(MainMenuItem::Options) => {
                self.screen = Screen::OptionsMenu(OptionsMenuItem::Model);
            },
            Screen::MainMenu(MainMenuItem::Exit) => {
                self.exit = true;
            },
            Screen::OptionsMenu(OptionsMenuItem::Model) => {
                return Action::FetchModels;
            },
            Screen::OptionsMenu(OptionsMenuItem::Return) => {
                self.screen = Screen::MainMenu(MainMenuItem::Play);
            },
            Screen::ModelMenu => {
                self.model = self.models[self.model_view_selected].clone();
            },
            Screen::InGame(GameScreen::EndMenu(EndMenuItem::Repeat)) => {
                self.start_round();
            },
            Screen::InGame(GameScreen::EndMenu(EndMenuItem::Exit)) => {
                self.exit = true;
            },
            Screen::InGame(GameScreen::Game(_)) => {},
        }
        Action::Nothing
    }

    /// Applies the up command.
    fn handle_k_input(&mut self)
        requires
            old(self).wf(),
        ensures
            final(self)@ == up_step(old(self)@),
    {
        match self.screen {
            Screen::MainMenu(MainMenuItem::Play) => {
                self.screen = Screen::MainMenu(MainMenuItem::Exit);
            },
            Screen::MainMenu(MainMenuItem::Options) => {
                self.screen = Screen::MainMenu(MainMenuItem::Play);
            },
            Screen::MainMenu(MainMenuItem::Exit) => {
                self.screen = Screen::MainMenu(MainMenuItem::Options);
            },
            Screen::OptionsMenu(OptionsMenuItem::Return) => {
                self.screen = Screen::OptionsMenu(OptionsMenuItem::Model);
            },
            Screen::ModelMenu => {
                self.handle_model_menu_updates(ModelMenuDirection::Up);
            },
            Screen::InGame(GameScreen::EndMenu(EndMenuItem::Exit)) => {
                self.screen = Screen::InGame(GameScreen::EndMenu(EndMenuItem::Repeat));
            },
            _ => {},
        }
    }

    /// Applies the down command.
    fn handle_j_input(&mut self)
        requires
            old(self).wf(),
        ensures
            final(self)@ == down_step(old(self)@),
    {
        match self.screen {
            Screen::MainMenu(MainMenuItem::Play) => {
                self.screen = Screen::MainMenu(MainMenuItem::Options);
            },
            Screen::MainMenu(MainMenuItem::Options) => {
                self.screen = Screen::MainMenu(MainMenuItem::Exit);
            },
            Screen::MainMenu(MainMenuItem::Exit) => {
                self.screen = Screen::MainMenu(MainMenuItem::Play);
            },
            Screen::OptionsMenu(OptionsMenuItem::Model) => {
                self.screen = Screen::OptionsMenu(OptionsMenuItem::Return);
            },
            Screen::ModelMenu => {
                self.handle_model_menu_updates(ModelMenuDirection::Down);
            },
            Screen::InGame(GameScreen::EndMenu(EndMenuItem::Repeat)) => {
                self.screen = Screen::InGame(GameScreen::EndMenu(EndMenuItem::Exit));
            },
            _ => {},
        }
    }

    /// Applies the back command.
    fn handle_h_input(&mut self)
        ensures
            final(self)@ == back_step(old(self)@),
    {
        match self.screen {
            Screen::ModelMenu => {
                self.screen = Screen::OptionsMenu(OptionsMenuItem::Model);
            },
            Screen::OptionsMenu(OptionsMenuItem::Model) => {
                self.screen = Screen::MainMenu(MainMenuItem::Play);
            },
            _ => {},
        }
    }
    /// Edits the focused field of the typing screen: types `ch`, erases the
    /// last character (nothing where the field is empty), or moves the focus.
    /// On another screen nothing changes.
    fn handle_textual_input(&mut self, operation: OperationType, ch: char)
        ensures
            final(self)@ == match old(self)@.screen {
                Screen::InGame(GameScreen::Game(focus)) => edit_step(
                    old(self)@,
                    focus,
                    match operation {
                        OperationType::Addition => Command::Append(ch),
                        OperationType::Deletion => Command::Delete,
                        OperationType::SwitchFocus => Command::SwitchFocus,
                    },
                ),
                _ => old(self)@,
            },
    {
        match self.screen {
            Screen::InGame(GameScreen::Game(GameItem::Range)) => match operation {
                OperationType::Addition => {
                    self.range_input.push(ch);
                },
                OperationType::Deletion => {
                    let _ = self.range_input.pop();
                },
                OperationType::SwitchFocus => {
                    self.screen = Screen::InGame(GameScreen::Game(GameItem::Input));
                },
            },
            Screen::InGame(GameScreen::Game(GameItem::Input)) => match operation {
                OperationType::Addition => {
                    self.input.push(ch);
                },
                OperationType::Deletion => {
                    let _ = self.input.pop();
                },
                OperationType::SwitchFocus => {
                    self.screen = Screen::InGame(GameScreen::Game(GameItem::Range));
                },
            },
            _ => {},
        }
    }

    /// Submits the range and the guess: accepted input starts the round's
    /// resolution, refused input raises the flag that shows the help line.
    fn confirm_input(&mut self)
        ensures
            final(self)@ == (if crate::validate::input_accepted(old(self)@.range, old(self)@.guess) {
                AppView { invalid: false, processing: true, ..old(self)@ }
            } else {
                AppView { invalid: true, ..old(self)@ }
            }),
    {
        if self.validate_input() {
            self.extra_line_help = false;
            self.processing_request = true;
        } else {
            self.extra_line_help = true;
        }
    }

    /// Whether the typed range and guess are accepted.
    pub fn validate_input(&self) -> (r: bool)
        ensures
            r == crate::validate::input_accepted(self@.range, self@.guess),
    {
        validate_input(&self.range_input, &self.input)
    }

    /// Applies a command. The state that results, and what is left for the
    /// caller to do, are those that `step` gives; the same command on the
    /// same state always has the same effect.
    pub fn handle_command(&mut self, cmd: Command) -> (r: Action)
        requires
            old(self).wf(),
        ensures
            final(self).wf(),
            (final(self)@, r) == step(old(self)@, cmd),
    {
        proof {
            crate::state::lemma_step_keeps_invariant(self@, cmd);
        }
        match cmd {
            Command::Quit => {
                self.exit = true;
                Action::Nothing
            },
            Command::Select => self.handle_l_input(),
            Command::Down => {
                self.handle_j_input();
                Action::Nothing
            },
            Command::Up => {
                self.handle_k_input();
                Action::Nothing
            },
            Command::Back => {
                self.handle_h_input();
                Action::Nothing
            },
            _ => {
                let typing = match self.screen {
                    Screen::InGame(GameScreen::Game(_)) => !self.processing_request,
                    _ => false,
                };
                if typing {
                    match cmd {
                        Command::Append(c) => self.handle_textual_input(OperationType::Addition, c),
                        Command::Delete => self.handle_textual_input(OperationType::Deletion, ' '),
                        Command::SwitchFocus => self.handle_textual_input(
                            OperationType::SwitchFocus,
                            ' ',
                        ),
                        _ => self.confirm_input(),
                    }
                }
                Action::Nothing
            },
        }
    }

    /// Handles a key press: the command it stands for on the active screen,
    /// if any, is applied; a key that stands for none changes nothing.
    pub fn handle_key(&mut self, key: Key) -> (r: Action)
        requires
            old(self).wf(),
        ensures
            final(self).wf(),
            match command_of(key, old(self)@.screen, old(self)@.processing) {
                Some(cmd) => (final(self)@, r) == step(old(self)@, cmd),
                None => final(self)@ == old(self)@ && r == Action::Nothing,
            },
    {
        match classify(key, self.screen, self.processing_request) {
            Some(cmd) => self.handle_command(cmd),
            None => Action::Nothing,
        }
    }
    /// Opens the model list, from the options menu with `Model` highlighted,
    /// on a freshly fetched `catalogue`: the highlight
    /// on its first model and the window at its top. An empty catalogue
    /// leaves the state as it was and gives `false`.
    pub fn enter_model_menu(&mut self, catalogue: Vec<String>) -> (r: bool)
        requires
            old(self).wf(),
            old(self)@.screen == Screen::OptionsMenu(OptionsMenuItem::Model),
        ensures
            final(self).wf(),
            r == (catalogue.len() > 0),
            !r ==> final(self)@ == old(self)@,
            r ==> final(self)@ == (AppView {
                screen: Screen::ModelMenu,
                models: catalogue@.map_values(|s: String| s@),
                highlighted: 0,
                offset: 0,
                ..old(self)@
            }),
    {
        if catalogue.len() == 0 {
            return false;
        }
        self.models = catalogue;
        self.model_view_selected = 0;
        self.model_view_offset = 0;
        self.screen = Screen::ModelMenu;
        true
    }

    /// Sets the number of rows that the model list shows, as the terminal
    /// allows, and scrolls the window just far enough that the highlight
    /// stays in it.
    pub fn set_view_capacity(&mut self, capacity: usize)
        requires
            old(self).wf(),
            capacity >= 1,
        ensures
            final(self).wf(),
            final(self)@ == (AppView {
                capacity: capacity as nat,
                offset: if old(self)@.models.len() > 0 && old(self)@.highlighted >= old(self)@.offset
                    + capacity {
                    (old(self)@.highlighted + 1 - capacity) as nat
                } else {
                    old(self)@.offset
                },
                ..old(self)@
            }),
    {
        if self.models.len() > 0 && self.model_view_selected - self.model_view_offset >= capacity {
            self.model_view_offset = self.model_view_selected + 1 - capacity;
        }
        self.model_view_capacity = capacity;
    }

    /// The rows that the model list shows: the models of the window, from
    /// the offset on, at most as many as the window has rows, each marked
    /// where it is highlighted and where requests go to it.
    pub fn model_rows(&self) -> (r: Vec<ModelRow>)
        requires
            self.wf(),
        ensures
            r.len() == row_count(self@),
            forall|i: int|
                0 <= i < r.len() ==> {
                    &&& (#[trigger] r[i]).id@ == self@.models[self@.offset + i]
                    &&& r[i].highlighted == (self@.offset + i == self@.highlighted)
                    &&& r[i].chosen == (self@.models[self@.offset + i] == self@.model)
                },
    {
        let mut rows: Vec<ModelRow> = Vec::new();
        let len = self.models.len();
        let mut i: usize = self.model_view_offset;
        if len == 0 {
            return rows;
        }
        while i < len && i - self.model_view_offset < self.model_view_capacity
            invariant
                self.wf(),
                len == self.models.len(),
                self.model_view_offset <= i <= len,
                i - self.model_view_offset <= self.model_view_capacity,
                rows.len() == i - self.model_view_offset,
                forall|k: int|
                    0 <= k < rows.len() ==> {
                        &&& (#[trigger] rows[k]).id@ == self@.models[self@.offset + k]
                        &&& rows[k].highlighted == (self@.offset + k == self@.highlighted)
                        &&& rows[k].chosen == (self@.models[self@.offset + k] == self@.model)
                    },
            decreases len - i,
        {
            let id = self.models[i].clone();
            let chosen = id == self.model;
            rows.push(ModelRow { id, highlighted: i == self.model_view_selected, chosen });
            i += 1;
        }
        rows
    }

    /// Resolves the round: draws a number between the typed bounds, both
    /// included, records whether it equals the guess, and counts a right
    /// guess in the score. Gives the number drawn.
    pub fn process_random(&mut self) -> (drawn: usize)
        requires
            old(self).wf(),
            old(self)@.processing,
        ensures
            final(self).wf(),
            round_numbers(old(self)@).0 <= drawn <= round_numbers(old(self)@).1,
            final(self)@ == (AppView {
                result: Some(outcome(round_numbers(old(self)@).2, drawn as nat)),
                score: scored(old(self)@.score, outcome(round_numbers(old(self)@).2, drawn as nat)),
                ..old(self)@
            }),
    {
        let numbers = read_input(&self.range_input, &self.input);
        let (lo, hi, guess) = match numbers {
            Some(t) => t,
            None => (0, 0, 0),
        };
        let drawn = draw_between(&mut self.rng, lo, hi);
        let result = if guess == drawn {
            RandomResult::Correct
        } else {
            RandomResult::Incorrect
        };
        self.result = Some(result);
        if result == RandomResult::Correct && self.score < u8::MAX {
            self.score = self.score + 1;
        }
        drawn
    }

    /// The request that reports the outcome of the round to the chosen model.
    pub fn request_body(&self) -> (r: Request)
        requires
            self@.result is Some,
        ensures
            r.model@ == self@.model,
            r.messages.len() == 2,
            r.messages[0].role == Role::System,
            r.messages[0].content@ == LLM_INPUT@,
            r.messages[1].role == Role::User,
            r.messages[1].content@ == outcome_word(self@.result->0),
    {
        let result = match self.result {
            Some(x) => x,
            None => RandomResult::Incorrect,
        };
        Request::new(self.model.clone(), result)
    }

    /// Ends the round's resolution with the service's `output`: it is kept
    /// for display, the end menu opens with `Repeat` highlighted, and typing
    /// is allowed again.
    pub fn finish_round(&mut self, output: String)
        requires
            old(self).wf(),
            old(self)@.processing,
            old(self)@.result is Some,
        ensures
            final(self).wf(),
            final(self)@ == (AppView {
                output: output@,
                screen: Screen::InGame(GameScreen::EndMenu(EndMenuItem::Repeat)),
                processing: false,
                ..old(self)@
            }),
    {
        self.chat_completion_output = output;
        self.screen = Screen::InGame(GameScreen::EndMenu(EndMenuItem::Repeat));
        self.processing_request = false;
    }
    /// The game is to end.
    pub fn exit(&self) -> (r: bool)
        ensures
            r == self@.exit,
    {
        self.exit
    }

    /// The active screen.
    pub fn screen(&self) -> (r: &Screen)
        ensures
            *r == self@.screen,
    {
        &self.screen
    }

    /// The number of rounds guessed right.
    pub fn score(&self) -> (r: u8)
        ensures
            r == self@.score,
    {
        self.score
    }

    /// The typed range.
    pub fn range_input(&self) -> (r: &Vec<char>)
        ensures
            r@ == self@.range,
    {
        &self.range_input
    }

    /// The typed guess.
    pub fn input(&self) -> (r: &Vec<char>)
        ensures
            r@ == self@.guess,
    {
        &self.input
    }

    /// The outcome of the last round, once resolved.
    pub fn result(&self) -> (r: Option<RandomResult>)
        ensures
            r == self@.result,
    {
        self.result
    }

    /// The model that requests go to.
    pub fn model(&self) -> (r: &String)
        ensures
            r@ == self@.model,
    {
        &self.model
    }

    /// The catalogue of models.
    pub fn models(&self) -> (r: &Vec<String>)
        ensures
            r@.map_values(|s: String| s@) == self@.models,
    {
        &self.models
    }

    /// The index of the highlighted model.
    pub fn model_view_selected(&self) -> (r: usize)
        ensures
            r == self@.highlighted,
    {
        self.model_view_selected
    }

    /// The number of models hidden above the visible window.
    pub fn model_view_offset(&self) -> (r: usize)
        ensures
            r == self@.offset,
    {
        self.model_view_offset
    }

    /// The number of rows of the visible window.
    pub fn model_view_capacity(&self) -> (r: usize)
        ensures
            r == self@.capacity,
    {
        self.model_view_capacity
    }

    /// The last submission was refused.
    pub fn extra_line_help(&self) -> (r: bool)
        ensures
            r == self@.invalid,
    {
        self.extra_line_help
    }

    /// A round is being resolved.
    pub fn processing_request(&self) -> (r: bool)
        ensures
            r == self@.processing,
    {
        self.processing_request
    }

    /// The text that the service answered with.
    pub fn chat_completion_output(&self) -> (r: &String)
        ensures
            r@ == self@.output,
    {
        &self.chat_completion_output
    }

    /// The key sent with every chat-completion request.
    pub fn api_key(&self) -> (r: &String)
        ensures
            *r == self.api_key_spec(),
    {
        &self.api_key
    }

    /// The key sent with every chat-completion request.
    pub closed spec fn api_key_spec(&self) -> String {
        self.api_key
    }
}

} // verus!
