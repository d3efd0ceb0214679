//! What the display shows: a projection of the buffer, the validation state
//! and the status of the last submission onto four panes.

use crate::app::App;
use crate::app::AppView;
use crate::text::debug_quoted;
use crate::text::join3;
use crate::text::quote_debug;
use crate::validation::ExprState;
use crate::validation::ExprStateView;
use vstd::prelude::*;
use vstd::string::StringExecFns;

verus! {

/// Mathematical value of a [`Span`].
pub struct SpanView {
    pub text: Seq<char>,
    pub bold: bool,
}

/// A piece of the help line.
#[derive(Debug, PartialEq, Eq)]
pub struct Span {
    pub text: String,
    /// Whether the piece names a key and is set in bold.
    pub bold: bool,
}

impl View for Span {
    type V = SpanView;

    open spec fn view(&self) -> SpanView {
        SpanView { text: self.text@, bold: self.bold }
    }
}

/// Mathematical value of a [`Pane`].
pub struct PaneView {
    pub title: Seq<char>,
    pub body: Seq<char>,
}

/// A bordered pane with a title.
#[derive(Debug, PartialEq, Eq)]
pub struct Pane {
    pub title: String,
    pub body: String,
}

impl View for Pane {
    type V = PaneView;

    open spec fn view(&self) -> PaneView {
        PaneView { title: self.title@, body: self.body@ }
    }
}

/// Mathematical value of a [`Frame`].
pub struct FrameView {
    pub help: Seq<SpanView>,
    pub input: PaneView,
    pub feedback: PaneView,
    pub response: PaneView,
}

/// One drawing of the display, top to bottom.
#[derive(Debug, PartialEq, Eq)]
pub struct Frame {
    /// The help line.
    pub help: Vec<Span>,
    /// The buffer as it is.
    pub input: Pane,
    /// The validation state.
    pub feedback: Pane,
    /// The status of the last submission.
    pub response: Pane,
}

/// The pieces of a help line, over mathematical values.
pub open spec fn spans_view(spans: Vec<Span>) -> Seq<SpanView> {
    spans@.map_values(|span: Span| span@)
}

impl View for Frame {
    type V = FrameView;

    open spec fn view(&self) -> FrameView {
        FrameView {
            help: spans_view(self.help),
            input: self.input@,
            feedback: self.feedback@,
            response: self.response@,
        }
    }
}

/// A piece of plain text.
pub open spec fn plain(text: Seq<char>) -> SpanView {
    SpanView { text, bold: false }
}

/// The name of a key.
pub open spec fn key_name(text: Seq<char>) -> SpanView {
    SpanView { text, bold: true }
}

/// The commands that are always on offer.
pub open spec fn standing_commands() -> Seq<SpanView> {
    seq![
        plain("press "@),
        key_name("q"@),
        plain(" to exit, "@),
        key_name("e"@),
        plain(" to launch $EDITOR"@),
    ]
}

/// The hint at the submit command.
pub open spec fn submit_hint() -> Seq<SpanView> {
    seq![plain(", "@), key_name("c"@), plain(" to create entry"@)]
}

/// The help line: the standing commands, the submit hint only for a valid
/// expression, and a full stop.
pub open spec fn help_line(valid: bool) -> Seq<SpanView> {
    standing_commands() + (if valid {
        submit_hint()
    } else {
        Seq::empty()
    }) + seq![plain("."@)]
}

/// The validation state as text: the name of the variant, with the scheme
/// and the expression, or with the quoted diagnostic, in round brackets.
pub open spec fn state_text(state: ExprStateView) -> Seq<char> {
    match state {
        ExprStateView::Valid(scheme, expr) => "Valid("@ + scheme.text + ", "@ + expr.text + ")"@,
        ExprStateView::Invalid(reason) => "Invalid("@ + debug_quoted(reason) + ")"@,
    }
}

/// The display of a buffer, a validation state and a status.
pub open spec fn frame_of(
    buffer: Seq<char>,
    state: ExprStateView,
    status: Seq<char>,
) -> FrameView {
    FrameView {
        help: help_line(state is Valid),
        input: PaneView { title: "expr input"@, body: buffer },
        feedback: PaneView { title: "feedback on expr"@, body: state_text(state) },
        response: PaneView { title: "holochain response"@, body: status },
    }
}

/// The display of a state of the client.
pub open spec fn frame_for(app: AppView) -> FrameView {
    frame_of(app.expr_input, app.expr_state, app.hc_response)
}

fn plain_span(text: &str) -> (span: Span)
    ensures
        span@ == plain(text@),
{
    Span { text: String::from_str(text), bold: false }
}

fn key_span(text: &str) -> (span: Span)
    ensures
        span@ == key_name(text@),
{
    Span { text: String::from_str(text), bold: true }
}

/// Builds the help line.
pub fn help_spans(valid: bool) -> (spans: Vec<Span>)
    ensures
        spans_view(spans) == help_line(valid),
{
    let mut spans: Vec<Span> = Vec::new();
    spans.push(plain_span("press "));
    spans.push(key_span("q"));
    spans.push(plain_span(" to exit, "));
    spans.push(key_span("e"));
    spans.push(plain_span(" to launch $EDITOR"));
    if valid {
        spans.push(plain_span(", "));
        spans.push(key_span("c"));
        spans.push(plain_span(" to create entry"));
    }
    spans.push(plain_span("."));
    assert(spans_view(spans) =~= help_line(valid));
    spans
}

/// Writes the validation state as text.
pub fn describe_state(state: &ExprState) -> (text: String)
    ensures
        text@ == state_text(state@),
{
    match state {
        ExprState::Valid(scheme, expr) => {
            let mut text = join3("Valid(", scheme.text.as_str(), ", ");
            text.append(expr.text.as_str());
            text.append(")");
            text
        },
        ExprState::Invalid(reason) => join3(
            "Invalid(",
            quote_debug(reason.as_str()).as_str(),
            ")",
        ),
    }
}

/// Draws the state of the client. The drawing depends on the buffer, the
/// validation state and the status alone.
pub fn render(app: &App) -> (frame: Frame)
    ensures
        frame@ == frame_for(app@),
{
    Frame {
        help: help_spans(app.expr_state.is_valid()),
        input: Pane { title: String::from_str("expr input"), body: app.expr_input.clone() },
        feedback: Pane {
            title: String::from_str("feedback on expr"),
            body: describe_state(&app.expr_state),
        },
        response: Pane {
            title: String::from_str("holochain response"),
            body: app.hc_response.clone(),
        },
    }
}

/// Two drawings of the same buffer, validation state and status are the
/// same, whatever else differs between the two states of the client.
pub proof fn law_render_pure(a: AppView, b: AppView)
    requires
        a.expr_input == b.expr_input,
        a.expr_state == b.expr_state,
        a.hc_response == b.hc_response,
    ensures
        frame_for(a) == frame_for(b),
{
}

/// The help line offers the submit command exactly for a valid expression.
pub proof fn law_submit_hint(state: ExprStateView)
    ensures
        help_line(state is Valid).contains(key_name("c"@)) <==> state is Valid,
{
    reveal_strlit("c");
    reveal_strlit("q");
    reveal_strlit("e");
    let line = help_line(state is Valid);
    if state is Valid {
        assert(line[6] == key_name("c"@));
    } else {
        assert(line.len() == 6);
        assert forall|i: int| 0 <= i < line.len() implies line[i] != key_name("c"@) by {
            assert("c"@[0] == 'c');
            assert("q"@[0] == 'q');
            assert("e"@[0] == 'e');
        }
    }
}

} // verus!
