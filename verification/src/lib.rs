//! Core of an interactive client for a small expression language: the state
//! machine that takes an edited text through parsing and type inference and,
//! once it is valid, through its submission to a ledger node.
//!
//! The library decides; its caller does the outside work. [`app::App::step`]
//! takes one event and answers with the next action: open the editor, ask
//! the language front end, read the bundle, call the ledger node. The caller
//! performs the action and hands its result back as the next event.

pub mod app;
pub mod hash;
pub mod laws;
pub mod render;
pub mod submission;
pub mod text;
pub mod validation;

pub use app::Action;
pub use app::App;
pub use app::Event;
pub use app::Key;
pub use app::Stage;
pub use validation::ExprState;
