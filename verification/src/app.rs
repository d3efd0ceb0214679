//! The interaction loop as a state machine: one event in, the next state and
//! one action out. The caller performs the action and hands back its result
//! as the next event.

use crate::hash::clone_bytes;
use crate::hash::ContextId;
use crate::hash::ContextIdView;
use crate::submission::bundle_path_text;
use crate::submission::bytes_outcome_view;
use crate::submission::build_invocation;
use crate::submission::context_for;
use crate::submission::derive_context;
use crate::submission::fold_reply;
use crate::submission::invocation_for;
use crate::submission::malformed_bundle_hash_text;
use crate::submission::reply_outcome_view;
use crate::submission::reply_status;
use crate::submission::Invocation;
use crate::submission::InvocationView;
use crate::submission::RpcError;
use crate::submission::RpcErrorView;
use crate::submission::SubmitError;
use crate::submission::SubmitErrorView;
use crate::validation::after_inference;
use crate::validation::after_parse;
use crate::validation::inference_outcome_view;
use crate::validation::judge_inference;
use crate::validation::judge_parse;
use crate::validation::parse_outcome_view;
use crate::validation::Expr;
use crate::validation::ExprState;
use crate::validation::ExprStateView;
use crate::validation::ExprView;
use crate::validation::Parsed;
use crate::validation::ParsedView;
use crate::validation::Scheme;
use crate::validation::SchemeView;
use crate::validation::Verdict;
use crate::validation::VerdictView;
use vstd::prelude::*;
use vstd::string::StringExecFns;

verus! {

/// One key press.
#[derive(Clone, Copy, Debug, PartialEq, Eq, Structural)]
pub enum Key {
    /// A character key.
    Char(char),
    /// Any other key.
    Other,
}

/// What a key press asks for.
#[derive(Clone, Copy, Debug, PartialEq, Eq, Structural)]
pub enum Command {
    /// Leave the loop.
    Exit,
    /// Edit the buffer in the external editor.
    Edit,
    /// Submit the expression.
    Confirm,
    /// Nothing: the key has no meaning.
    Ignored,
}

/// The command bound to a key: `q` exits, `e` edits, `c` confirms.
pub open spec fn command_of(key: Key) -> Command {
    match key {
        Key::Char(c) => if c == 'q' {
            Command::Exit
        } else if c == 'e' {
            Command::Edit
        } else if c == 'c' {
            Command::Confirm
        } else {
            Command::Ignored
        },
        Key::Other => Command::Ignored,
    }
}

/// The command bound to a key.
pub fn command_for(key: Key) -> (command: Command)
    ensures
        command == command_of(key),
{
    match key {
        Key::Char(c) => {
            if c == 'q' {
                Command::Exit
            } else if c == 'e' {
                Command::Edit
            } else if c == 'c' {
                Command::Confirm
            } else {
                Command::Ignored
            }
        },
        Key::Other => Command::Ignored,
    }
}

/// The arguments of a submission, over mathematical values.
pub open spec fn args_view(args: Vec<Vec<u8>>) -> Seq<Seq<u8>> {
    args@.map_values(|arg: Vec<u8>| arg@)
}

/// A copy of the arguments.
pub fn clone_args(args: &Vec<Vec<u8>>) -> (copy: Vec<Vec<u8>>)
    ensures
        args_view(copy) == args_view(*args),
{
    let mut copy: Vec<Vec<u8>> = Vec::new();
    let mut i: usize = 0;
    while i < args.len()
        invariant
            i <= args@.len(),
            copy@.len() == i,
            forall|j: int| 0 <= j < i ==> copy@[j]@ == args@[j]@,
        decreases args@.len() - i,
    {
        copy.push(clone_bytes(&args[i]));
        i = i + 1;
    }
    assert(args_view(copy) =~= args_view(*args));
    copy
}

/// Mathematical value of a [`Stage`].
pub enum StageView {
    Idle,
    Editing,
    Parsing,
    Inferring(ExprView),
    ReadingBundle(ExprView),
    ConvertingBundle(ExprView),
    EncodingPayload(ContextIdView),
    AwaitingReply,
    Stopped,
}

/// Where the loop stands: idle between two key presses, waiting for the
/// result of one outside step, or stopped.
#[derive(Debug, PartialEq, Eq)]
pub enum Stage {
    /// Waiting for a key press.
    Idle,
    /// The external editor is open.
    Editing,
    /// The parser has the buffer.
    Parsing,
    /// Type inference has the parsed expression.
    Inferring(Expr),
    /// A submission of the expression has begun; the bundle is being read.
    ReadingBundle(Expr),
    /// The bundle is being brought into its executable form.
    ConvertingBundle(Expr),
    /// The payload is being serialized for the execution context.
    EncodingPayload(ContextId),
    /// The invocation is with the ledger node.
    AwaitingReply,
    /// The loop has ended.
    Stopped,
}

impl View for Stage {
    type V = StageView;

    open spec fn view(&self) -> StageView {
        match self {
            Stage::Idle => StageView::Idle,
            Stage::Editing => StageView::Editing,
            Stage::Parsing => StageView::Parsing,
            Stage::Inferring(expr) => StageView::Inferring(expr@),
            Stage::ReadingBundle(expr) => StageView::ReadingBundle(expr@),
            Stage::ConvertingBundle(expr) => StageView::ConvertingBundle(expr@),
            Stage::EncodingPayload(context) => StageView::EncodingPayload(context@),
            Stage::AwaitingReply => StageView::AwaitingReply,
            Stage::Stopped => StageView::Stopped,
        }
    }
}

/// Mathematical value of an [`Event`].
pub enum EventView {
    Key(Key),
    Edited(Seq<char>),
    Parsed(Result<ParsedView, Seq<char>>),
    Inferred(Result<SchemeView, Seq<char>>),
    BundleRead(Result<Seq<u8>, Seq<char>>),
    BundleConverted(Result<Seq<u8>, Seq<char>>),
    PayloadEncoded(Result<Seq<u8>, Seq<char>>),
    Replied(Result<Seq<u8>, RpcErrorView>),
}

/// What happened outside: a key press, or the result of the action that the
/// loop asked for last.
#[derive(Debug, PartialEq, Eq)]
pub enum Event {
    /// A key was pressed.
    Key(Key),
    /// The external editor closed and left this text.
    Edited(String),
    /// The parser answered: an expression and the input it left over, or its
    /// formatted error.
    Parsed(Result<Parsed, String>),
    /// Type inference answered: a scheme, or its formatted error.
    Inferred(Result<Scheme, String>),
    /// The bundle file was read: its bytes, or why it could not be read.
    BundleRead(Result<Vec<u8>, String>),
    /// The bundle was converted: the raw bytes of its content hash, or why
    /// it could not be converted.
    BundleConverted(Result<Vec<u8>, String>),
    /// The payload was serialized: its bytes, or why it could not be.
    PayloadEncoded(Result<Vec<u8>, String>),
    /// The ledger node answered: the bytes of its reply, or how the call
    /// failed.
    Replied(Result<Vec<u8>, RpcError>),
}

impl View for Event {
    type V = EventView;

    open spec fn view(&self) -> EventView {
        match self {
            Event::Key(key) => EventView::Key(*key),
            Event::Edited(text) => EventView::Edited(text@),
            Event::Parsed(outcome) => EventView::Parsed(parse_outcome_view(*outcome)),
            Event::Inferred(outcome) => EventView::Inferred(inference_outcome_view(*outcome)),
            Event::BundleRead(outcome) => EventView::BundleRead(bytes_outcome_view(*outcome)),
            Event::BundleConverted(outcome) => EventView::BundleConverted(
                bytes_outcome_view(*outcome),
            ),
            Event::PayloadEncoded(outcome) => EventView::PayloadEncoded(
                bytes_outcome_view(*outcome),
            ),
            Event::Replied(outcome) => EventView::Replied(reply_outcome_view(*outcome)),
        }
    }
}

/// Mathematical value of an [`Action`].
pub enum ActionView {
    Poll,
    Quit,
    Nothing,
    OpenEditor { text: Seq<char> },
    Parse { text: Seq<char> },
    Infer { expr: ExprView },
    ReadBundle { path: Seq<char> },
    ConvertBundle { bundle: Seq<u8> },
    EncodePayload { expr: ExprView, args: Seq<Seq<u8>> },
    Invoke(InvocationView),
}

/// What the caller is to do next.
#[derive(Debug, PartialEq, Eq)]
pub enum Action {
    /// Draw the current state and wait for the next key press.
    Poll,
    /// Clear the display and leave the loop.
    Quit,
    /// Nothing: the event was not awaited, and nothing changed.
    Nothing,
    /// Open the external editor on this text.
    OpenEditor { text: String },
    /// Parse this text.
    Parse { text: String },
    /// Infer the type of this expression.
    Infer { expr: Expr },
    /// Read the bundle file at this path.
    ReadBundle { path: String },
    /// Bring the bundle into its executable form and hash it.
    ConvertBundle { bundle: Vec<u8> },
    /// Serialize the expression and its arguments.
    EncodePayload { expr: Expr, args: Vec<Vec<u8>> },
    /// Send the invocation to the ledger node.
    Invoke(Invocation),
}

impl View for Action {
    type V = ActionView;

    open spec fn view(&self) -> ActionView {
        match self {
            Action::Poll => ActionView::Poll,
            Action::Quit => ActionView::Quit,
            Action::Nothing => ActionView::Nothing,
            Action::OpenEditor { text } => ActionView::OpenEditor { text: text@ },
            Action::Parse { text } => ActionView::Parse { text: text@ },
            Action::Infer { expr } => ActionView::Infer { expr: expr@ },
            Action::ReadBundle { path } => ActionView::ReadBundle { path: path@ },
            Action::ConvertBundle { bundle } => ActionView::ConvertBundle { bundle: bundle@ },
            Action::EncodePayload { expr, args } => ActionView::EncodePayload {
                expr: expr@,
                args: args_view(*args),
            },
            Action::Invoke(call) => ActionView::Invoke(call@),
        }
    }
}

impl ActionView {
    /// The action sends something to the ledger node.
    pub open spec fn dispatches(self) -> bool {
        self is Invoke
    }

    /// The action asks the caller for outside work of any kind.
    pub open spec fn asks_for_work(self) -> bool {
        !(self is Poll || self is Quit || self is Nothing)
    }
}

/// Mathematical value of an [`App`].
pub struct AppView {
    pub expr_input: Seq<char>,
    pub expr_state: ExprStateView,
    pub hc_response: Seq<char>,
    pub args: Seq<Seq<u8>>,
    pub stage: StageView,
}

/// The state of the client: the editor buffer, the validation state derived
/// from it at the last validation, the status of the last submission, and
/// where the loop stands.
#[derive(Debug, PartialEq, Eq)]
pub struct App {
    /// The editor buffer.
    pub expr_input: String,
    /// The validation state.
    pub expr_state: ExprState,
    /// The status of the last submission.
    pub hc_response: String,
    /// The arguments that a submission sends along with the expression.
    pub args: Vec<Vec<u8>>,
    /// Where the loop stands.
    pub stage: Stage,
}

impl View for App {
    type V = AppView;

    open spec fn view(&self) -> AppView {
        AppView {
            expr_input: self.expr_input@,
            expr_state: self.expr_state@,
            hc_response: self.hc_response@,
            args: args_view(self.args),
            stage: self.stage@,
        }
    }
}

/// The state in which the client starts: an empty buffer that counts as
/// invalid, no status, no arguments, waiting for a key press.
pub open spec fn initial() -> AppView {
    AppView {
        expr_input: Seq::empty(),
        expr_state: ExprStateView::Invalid("init"@),
        hc_response: Seq::empty(),
        args: Seq::empty(),
        stage: StageView::Idle,
    }
}

/// The buffer replaced by `text`; nothing else changes.
pub open spec fn edited(app: AppView, text: Seq<char>) -> AppView {
    AppView { expr_input: text, ..app }
}

/// A validation begins: while idle, the parser is asked about the buffer.
/// In any other stage nothing happens.
pub open spec fn validation_begun(app: AppView) -> (AppView, ActionView) {
    if app.stage is Idle {
        (AppView { stage: StageView::Parsing, ..app }, ActionView::Parse { text: app.expr_input })
    } else {
        (app, ActionView::Nothing)
    }
}

/// A submission begins: while idle with a valid expression, the bundle is
/// asked for. With an invalid one nothing changes and nothing is sent.
pub open spec fn submission_begun(app: AppView) -> (AppView, ActionView) {
    match app.stage {
        StageView::Idle => match app.expr_state {
            ExprStateView::Valid(_, expr) => (
                AppView { stage: StageView::ReadingBundle(expr), ..app },
                ActionView::ReadBundle { path: bundle_path_text() },
            ),
            ExprStateView::Invalid(_) => (app, ActionView::Poll),
        },
        _ => (app, ActionView::Nothing),
    }
}

/// A validation ends with `state`.
pub open spec fn settled(app: AppView, state: ExprStateView) -> (AppView, ActionView) {
    (AppView { expr_state: state, stage: StageView::Idle, ..app }, ActionView::Poll)
}

/// A submission ends with `status`; the validation state is untouched.
pub open spec fn concluded(app: AppView, status: Seq<char>) -> (AppView, ActionView) {
    (AppView { hc_response: status, stage: StageView::Idle, ..app }, ActionView::Poll)
}

/// A key press in a loop that has not stopped. The exit command stops the
/// loop in every stage. The other keys count only while idle.
pub open spec fn key_pressed(app: AppView, key: Key) -> (AppView, ActionView) {
    if command_of(key) == Command::Exit {
        (AppView { stage: StageView::Stopped, ..app }, ActionView::Quit)
    } else if !(app.stage is Idle) {
        (app, ActionView::Nothing)
    } else {
        match command_of(key) {
            Command::Edit => (
                AppView { stage: StageView::Editing, ..app },
                ActionView::OpenEditor { text: app.expr_input },
            ),
            Command::Confirm => submission_begun(app),
            _ => (app, ActionView::Poll),
        }
    }
}

/// The result of an outside step arrives in the stage that waits for it.
pub open spec fn result_arrived(app: AppView, event: EventView) -> (AppView, ActionView) {
    match (app.stage, event) {
        (StageView::Editing, EventView::Edited(text)) => validation_begun(
            AppView { stage: StageView::Idle, ..edited(app, text) },
        ),
        (StageView::Parsing, EventView::Parsed(outcome)) => match after_parse(outcome) {
            VerdictView::Settled(state) => settled(app, state),
            VerdictView::NeedsInference(expr) => (
                AppView { stage: StageView::Inferring(expr), ..app },
                ActionView::Infer { expr },
            ),
        },
        (StageView::Inferring(expr), EventView::Inferred(outcome)) => settled(
            app,
            after_inference(expr, outcome),
        ),
        (StageView::ReadingBundle(expr), EventView::BundleRead(outcome)) => match outcome {
            Ok(bundle) => (
                AppView { stage: StageView::ConvertingBundle(expr), ..app },
                ActionView::ConvertBundle { bundle },
            ),
            Err(detail) => concluded(app, SubmitErrorView::BundleRead(detail).status()),
        },
        (StageView::ConvertingBundle(expr), EventView::BundleConverted(outcome)) => match outcome {
            Ok(hash) => match context_for(hash) {
                Some(context) => (
                    AppView { stage: StageView::EncodingPayload(context), ..app },
                    ActionView::EncodePayload { expr, args: app.args },
                ),
                None => concluded(
                    app,
                    SubmitErrorView::BundleConversion(malformed_bundle_hash_text()).status(),
                ),
            },
            Err(detail) => concluded(app, SubmitErrorView::BundleConversion(detail).status()),
        },
        (StageView::EncodingPayload(context), EventView::PayloadEncoded(outcome)) => match outcome {
            Ok(payload) => (
                AppView { stage: StageView::AwaitingReply, ..app },
                ActionView::Invoke(invocation_for(context, payload)),
            ),
            Err(detail) => concluded(app, SubmitErrorView::PayloadEncoding(detail).status()),
        },
        (StageView::AwaitingReply, EventView::Replied(outcome)) => concluded(
            app,
            reply_status(outcome),
        ),
        _ => (app, ActionView::Nothing),
    }
}

/// The transition of the loop: the state and the action that follow `event`
/// in state `app`. A stopped loop stays as it is and asks for nothing.
pub open spec fn transition(app: AppView, event: EventView) -> (AppView, ActionView) {
    if app.stage is Stopped {
        (app, ActionView::Nothing)
    } else {
        match event {
            EventView::Key(key) => key_pressed(app, key),
            _ => result_arrived(app, event),
        }
    }
}

impl App {
    /// The state in which the client starts.
    pub fn new() -> (app: App)
        ensures
            app@ == initial(),
    {
        let app = App {
            expr_input: String::new(),
            expr_state: ExprState::Invalid(String::from_str("init")),
            hc_response: String::new(),
            args: Vec::new(),
            stage: Stage::Idle,
        };
        assert(args_view(app.args) =~= Seq::<Seq<u8>>::empty());
        app
    }

    /// Replaces the buffer. The validation state is not touched: it stays
    /// what the last validation found.
    pub fn edit(&mut self, new_text: String)
        ensures
            final(self)@ == edited(old(self)@, new_text@),
    {
        self.expr_input = new_text;
    }

    /// Begins a validation of the buffer.
    pub fn revalidate(&mut self) -> (action: Action)
        ensures
            (final(self)@, action@) == validation_begun(old(self)@),
    {
        match self.stage {
            Stage::Idle => {
                self.stage = Stage::Parsing;
                Action::Parse { text: self.expr_input.clone() }
            },
            _ => Action::Nothing,
        }
    }

    /// Begins a submission of the valid expression. With an invalid one this
    /// changes nothing and asks for nothing to be sent.
    pub fn submit(&mut self) -> (action: Action)
        ensures
            (final(self)@, action@) == submission_begun(old(self)@),
    {
        match self.stage {
            Stage::Idle => match &self.expr_state {
                ExprState::Valid(_, expr) => {
                    let expr = expr.clone();
                    self.stage = Stage::ReadingBundle(expr);
                    Action::ReadBundle {
                        path: String::from_str("./happs/rep_interchange/rep_interchange.dna"),
                    }
                },
                ExprState::Invalid(_) => Action::Poll,
            },
            _ => Action::Nothing,
        }
    }

    /// Ends a validation.
    fn settle(&mut self, state: ExprState) -> (action: Action)
        ensures
            (final(self)@, action@) == settled(old(self)@, state@),
    {
        self.expr_state = state;
        self.stage = Stage::Idle;
        Action::Poll
    }

    /// Ends a submission.
    fn conclude(&mut self, status: String) -> (action: Action)
        ensures
            (final(self)@, action@) == concluded(old(self)@, status@),
    {
        self.hc_response = status;
        self.stage = Stage::Idle;
        Action::Poll
    }

    /// Handles a key press in a loop that has not stopped.
    fn press(&mut self, key: Key) -> (action: Action)
        ensures
            (final(self)@, action@) == key_pressed(old(self)@, key),
    {
        let command = command_for(key);
        match command {
            Command::Exit => {
                self.stage = Stage::Stopped;
                return Action::Quit;
            },
            _ => {},
        }
        match self.stage {
            Stage::Idle => {},
            _ => {
                return Action::Nothing;
            },
        }
        match command {
            Command::Edit => {
                self.stage = Stage::Editing;
                Action::OpenEditor { text: self.expr_input.clone() }
            },
            Command::Confirm => self.submit(),
            _ => Action::Poll,
        }
    }

    /// Takes one event and says what to do next.
    pub fn step(&mut self, event: Event) -> (action: Action)
        ensures
            (final(self)@, action@) == transition(old(self)@, event@),
    {
        let mut stage = Stage::Stopped;
        core::mem::swap(&mut self.stage, &mut stage);
        match (stage, event) {
            (Stage::Stopped, _) => Action::Nothing,
            (stage, Event::Key(key)) => {
                self.stage = stage;
                self.press(key)
            },
            (Stage::Editing, Event::Edited(text)) => {
                self.stage = Stage::Idle;
                self.edit(text);
                self.revalidate()
            },
            (Stage::Parsing, Event::Parsed(outcome)) => {
                self.stage = Stage::Parsing;
                match judge_parse(outcome) {
                    Verdict::Settled(state) => self.settle(state),
                    Verdict::NeedsInference(expr) => {
                        let action = Action::Infer { expr: expr.clone() };
                        self.stage = Stage::Inferring(expr);
                        action
                    },
                }
            },
            (Stage::Inferring(expr), Event::Inferred(outcome)) => {
                let state = judge_inference(expr, outcome);
                self.settle(state)
            },
            (Stage::ReadingBundle(expr), Event::BundleRead(outcome)) => match outcome {
                Ok(bundle) => {
                    self.stage = Stage::ConvertingBundle(expr);
                    Action::ConvertBundle { bundle }
                },
                Err(detail) => {
                    let status = SubmitError::BundleRead(detail).status();
                    self.conclude(status)
                },
            },
            (Stage::ConvertingBundle(expr), Event::BundleConverted(outcome)) => match outcome {
                Ok(hash) => match derive_context(hash) {
                    Ok(context) => {
                        self.stage = Stage::EncodingPayload(context);
                        Action::EncodePayload { expr, args: clone_args(&self.args) }
                    },
                    Err(error) => {
                        let status = error.status();
                        self.conclude(status)
                    },
                },
                Err(detail) => {
                    let status = SubmitError::BundleConversion(detail).status();
                    self.conclude(status)
                },
            },
            (Stage::EncodingPayload(context), Event::PayloadEncoded(outcome)) => match outcome {
                Ok(payload) => {
                    self.stage = Stage::AwaitingReply;
                    Action::Invoke(build_invocation(context, payload))
                },
                Err(detail) => {
                    let status = SubmitError::PayloadEncoding(detail).status();
                    self.conclude(status)
                },
            },
            (Stage::AwaitingReply, Event::Replied(outcome)) => {
                let status = fold_reply(outcome);
                self.conclude(status)
            },
            (stage, _) => {
                self.stage = stage;
                Action::Nothing
            },
        }
    }
}

} // verus!
