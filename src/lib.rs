//! A terminal number-guessing game: the screen state machine, the input
//! classifier, the validation of the typed range and guess, and the scrolling
//! window of the model list, each proved against its contract.

pub mod app;
pub mod cli;
pub mod messages;
pub mod random;
pub mod screen;
pub mod state;
pub mod validate;
pub mod viewport;

pub use app::App;
pub use cli::Cli;
