use frontend_tui::render::describe_state;
use frontend_tui::render::help_spans;
use frontend_tui::render::render;
use frontend_tui::render::Pane;
use frontend_tui::render::Span;
use frontend_tui::validation::Expr;
use frontend_tui::validation::Scheme;
use frontend_tui::App;
use frontend_tui::ExprState;
use frontend_tui::Stage;

fn plain(text: &str) -> Span {
    Span { text: text.to_string(), bold: false }
}

fn key(text: &str) -> Span {
    Span { text: text.to_string(), bold: true }
}

fn valid() -> ExprState {
    ExprState::Valid(
        Scheme { text: "Scheme([], TCon(\"Int\"))".to_string() },
        Expr { text: "Lit(LInt(1))".to_string(), encoding: vec![1] },
    )
}

fn line(spans: &[Span]) -> String {
    let mut text = String::new();
    for span in spans {
        text.push_str(&span.text);
    }
    text
}

#[test]
fn help_line_without_the_submit_hint() {
    let spans = help_spans(false);
    assert_eq!(
        spans,
        vec![plain("press "), key("q"), plain(" to exit, "), key("e"), plain(" to launch $EDITOR"), plain(".")]
    );
    assert_eq!(line(&spans), "press q to exit, e to launch $EDITOR.");
}

#[test]
fn help_line_with_the_submit_hint() {
    let spans = help_spans(true);
    assert_eq!(
        spans,
        vec![
            plain("press "),
            key("q"),
            plain(" to exit, "),
            key("e"),
            plain(" to launch $EDITOR"),
            plain(", "),
            key("c"),
            plain(" to create entry"),
            plain("."),
        ]
    );
    assert_eq!(line(&spans), "press q to exit, e to launch $EDITOR, c to create entry.");
}

#[test]
fn initial_state_is_drawn() {
    let frame = render(&App::new());
    assert_eq!(frame.help, help_spans(false));
    assert_eq!(frame.input, Pane { title: "expr input".to_string(), body: String::new() });
    assert_eq!(
        frame.feedback,
        Pane { title: "feedback on expr".to_string(), body: "Invalid(\"init\")".to_string() }
    );
    assert_eq!(
        frame.response,
        Pane { title: "holochain response".to_string(), body: String::new() }
    );
}

#[test]
fn valid_state_is_drawn_with_the_hint() {
    let mut app = App::new();
    app.expr_input = "1".to_string();
    app.expr_state = valid();
    app.hc_response = "create: ie_hash: H".to_string();
    let frame = render(&app);
    assert_eq!(frame.help, help_spans(true));
    assert_eq!(frame.input.body, "1");
    assert_eq!(frame.feedback.body, "Valid(Scheme([], TCon(\"Int\")), Lit(LInt(1)))");
    assert_eq!(frame.response.body, "create: ie_hash: H");
}

#[test]
fn diagnostic_is_quoted_with_its_escapes() {
    let state = ExprState::Invalid("parse error: a \"b\"\n\tc\\".to_string());
    assert_eq!(describe_state(&state), "Invalid(\"parse error: a \\\"b\\\"\\n\\tc\\\\\")");
    assert_eq!(describe_state(&ExprState::Invalid(String::new())), "Invalid(\"\")");
}

#[test]
fn diagnostic_is_quoted_as_std_prints_it() {
    let reason = "type error: caf\u{e9} \u{1f600} \u{7f}";
    assert_eq!(
        describe_state(&ExprState::Invalid(reason.to_string())),
        format!("Invalid({:?})", reason)
    );
}

#[test]
fn two_drawings_of_one_state_are_equal() {
    let mut app = App::new();
    app.expr_input = "(".to_string();
    app.expr_state = ExprState::Invalid("parse error: eof".to_string());
    app.hc_response = "error: BundleReadError: gone".to_string();
    let first = render(&app);
    let second = render(&app);
    assert_eq!(first, second);
    assert_eq!(app.expr_input, "(");
    assert_eq!(app.hc_response, "error: BundleReadError: gone");
}

#[test]
fn drawing_ignores_the_stage_and_the_arguments() {
    let mut idle = App::new();
    idle.expr_state = valid();
    let mut busy = App::new();
    busy.expr_state = valid();
    busy.stage = Stage::AwaitingReply;
    busy.args = vec![vec![1]];
    assert_eq!(render(&idle), render(&busy));
}
