use frontend_tui::app::command_for;
use frontend_tui::app::Command;
use frontend_tui::hash::AgentKey;
use frontend_tui::submission::ledger_address;
use frontend_tui::submission::RpcError;
use frontend_tui::validation::Expr;
use frontend_tui::validation::Parsed;
use frontend_tui::validation::Scheme;
use frontend_tui::Action;
use frontend_tui::App;
use frontend_tui::Event;
use frontend_tui::ExprState;
use frontend_tui::Key;
use frontend_tui::Stage;

const BUNDLE_PATH: &str = "./happs/rep_interchange/rep_interchange.dna";

fn expr() -> Expr {
    Expr { text: "Lit(LInt(1))".to_string(), encoding: vec![0x81, 0xa3, 0x01] }
}

fn scheme() -> Scheme {
    Scheme { text: "Scheme([], TCon(\"Int\"))".to_string() }
}

fn bundle_hash() -> Vec<u8> {
    let mut bytes = vec![0x84, 0x2d, 0x24];
    bytes.extend(vec![0x11; 36]);
    bytes
}

fn record_reply() -> Vec<u8> {
    let mut bytes = vec![0xc4, 39, 0x84, 0x29, 0x24];
    bytes.extend(vec![0xdb; 36]);
    bytes
}

fn identity() -> Vec<u8> {
    let mut bytes = vec![0x84, 0x20, 0x24];
    bytes.extend(vec![1; 36]);
    bytes
}

/// Edits the buffer to `text` and validates it with the given answers.
fn edit_and_validate(
    app: &mut App,
    text: &str,
    parse: Result<Parsed, String>,
    inference: Result<Scheme, String>,
) {
    assert_eq!(
        app.step(Event::Key(Key::Char('e'))),
        Action::OpenEditor { text: app.expr_input.clone() }
    );
    assert_eq!(app.step(Event::Edited(text.to_string())), Action::Parse { text: text.to_string() });
    match app.step(Event::Parsed(parse)) {
        Action::Infer { expr: _ } => {
            assert_eq!(app.step(Event::Inferred(inference)), Action::Poll);
        }
        action => assert_eq!(action, Action::Poll),
    }
}

fn valid_app() -> App {
    let mut app = App::new();
    edit_and_validate(
        &mut app,
        "valid-expr-text",
        Ok(Parsed { expr: expr(), leftover: String::new() }),
        Ok(scheme()),
    );
    app
}

/// Takes a valid app up to the point where the invocation is with the node.
fn awaiting_reply() -> App {
    let mut app = valid_app();
    app.step(Event::Key(Key::Char('c')));
    app.step(Event::BundleRead(Ok(vec![1, 2, 3])));
    app.step(Event::BundleConverted(Ok(bundle_hash())));
    app.step(Event::PayloadEncoded(Ok(vec![9, 9])));
    assert_eq!(app.stage, Stage::AwaitingReply);
    app
}

#[test]
fn starts_empty_invalid_and_idle() {
    let app = App::new();
    assert_eq!(app.expr_input, "");
    assert_eq!(app.expr_state, ExprState::Invalid("init".to_string()));
    assert_eq!(app.hc_response, "");
    assert!(app.args.is_empty());
    assert_eq!(app.stage, Stage::Idle);
}

#[test]
fn ledger_address_is_the_local_node() {
    assert_eq!(ledger_address(), "ws://127.0.0.1:9999");
}

#[test]
fn keys_map_to_commands() {
    assert_eq!(command_for(Key::Char('q')), Command::Exit);
    assert_eq!(command_for(Key::Char('e')), Command::Edit);
    assert_eq!(command_for(Key::Char('c')), Command::Confirm);
    assert_eq!(command_for(Key::Char('Q')), Command::Ignored);
    assert_eq!(command_for(Key::Char('x')), Command::Ignored);
    assert_eq!(command_for(Key::Other), Command::Ignored);
}

#[test]
fn edit_replaces_the_buffer_and_nothing_else() {
    let mut app = valid_app();
    app.hc_response = "create: ie_hash: H".to_string();
    app.edit("(".to_string());
    assert_eq!(app.expr_input, "(");
    assert_eq!(app.expr_state, ExprState::Valid(scheme(), expr()));
    assert_eq!(app.hc_response, "create: ie_hash: H");
    assert_eq!(app.stage, Stage::Idle);
}

#[test]
fn revalidate_asks_the_parser_about_the_buffer() {
    let mut app = App::new();
    app.edit("1 + 1".to_string());
    assert_eq!(app.revalidate(), Action::Parse { text: "1 + 1".to_string() });
    assert_eq!(app.stage, Stage::Parsing);
    assert_eq!(app.expr_state, ExprState::Invalid("init".to_string()));
}

#[test]
fn revalidate_waits_its_turn() {
    let mut app = App::new();
    app.revalidate();
    assert_eq!(app.revalidate(), Action::Nothing);
    assert_eq!(app.stage, Stage::Parsing);
}

#[test]
fn accepted_text_becomes_valid() {
    let app = valid_app();
    assert_eq!(app.expr_input, "valid-expr-text");
    assert_eq!(app.expr_state, ExprState::Valid(scheme(), expr()));
    assert_eq!(app.stage, Stage::Idle);
}

#[test]
fn inference_is_asked_for_the_parsed_expression() {
    let mut app = App::new();
    app.step(Event::Key(Key::Char('e')));
    app.step(Event::Edited("1".to_string()));
    assert_eq!(
        app.step(Event::Parsed(Ok(Parsed { expr: expr(), leftover: String::new() }))),
        Action::Infer { expr: expr() }
    );
    assert_eq!(app.stage, Stage::Inferring(expr()));
    assert_eq!(app.expr_state, ExprState::Invalid("init".to_string()));
}

#[test]
fn leftover_input_is_invalid_without_inference() {
    let mut app = App::new();
    app.step(Event::Key(Key::Char('e')));
    app.step(Event::Edited("1 )".to_string()));
    assert_eq!(
        app.step(Event::Parsed(Ok(Parsed { expr: expr(), leftover: ")".to_string() }))),
        Action::Poll
    );
    assert_eq!(app.expr_state, ExprState::Invalid("unconsumed input: )".to_string()));
    assert_eq!(app.stage, Stage::Idle);
}

#[test]
fn type_error_is_invalid() {
    let mut app = App::new();
    edit_and_validate(
        &mut app,
        "x",
        Ok(Parsed { expr: expr(), leftover: String::new() }),
        Err("UnboundVariable(Name(\"x\"))".to_string()),
    );
    assert_eq!(
        app.expr_state,
        ExprState::Invalid("type error: UnboundVariable(Name(\"x\"))".to_string())
    );
}

#[test]
fn validating_twice_gives_the_same_state() {
    let mut app = valid_app();
    let first_state = app.expr_state.clone();
    let first_input = app.expr_input.clone();
    edit_and_validate(
        &mut app,
        "valid-expr-text",
        Ok(Parsed { expr: expr(), leftover: String::new() }),
        Ok(scheme()),
    );
    assert_eq!(app.expr_state, first_state);
    assert_eq!(app.expr_input, first_input);

    let mut bad = App::new();
    edit_and_validate(&mut bad, "(", Err("eof".to_string()), Ok(scheme()));
    let first = bad.expr_state.clone();
    assert_eq!(bad.revalidate(), Action::Parse { text: "(".to_string() });
    assert_eq!(bad.step(Event::Parsed(Err("eof".to_string()))), Action::Poll);
    assert_eq!(bad.expr_state, first);
}

#[test]
fn confirmation_gate_round_trip() {
    let mut app = valid_app();
    assert!(app.expr_state.is_valid());

    assert_eq!(
        app.step(Event::Key(Key::Char('c'))),
        Action::ReadBundle { path: BUNDLE_PATH.to_string() }
    );
    assert_eq!(app.stage, Stage::ReadingBundle(expr()));
    assert_eq!(
        app.step(Event::BundleRead(Ok(vec![1, 2, 3]))),
        Action::ConvertBundle { bundle: vec![1, 2, 3] }
    );
    assert_eq!(
        app.step(Event::BundleConverted(Ok(bundle_hash()))),
        Action::EncodePayload { expr: expr(), args: Vec::new() }
    );
    let call = match app.step(Event::PayloadEncoded(Ok(vec![9, 9]))) {
        Action::Invoke(call) => call,
        other => panic!("no invocation: {:?}", other),
    };
    assert_eq!(call.zome_name, "interpreter");
    assert_eq!(call.fn_name, "create_interchange_entry");
    assert_eq!(call.payload, vec![9, 9]);
    assert_eq!(call.cap, None);
    assert_eq!(call.provenance, AgentKey::signing_identity());
    assert_eq!(call.provenance.raw_39(), &identity());
    assert_eq!(call.context.bundle.raw_39(), &bundle_hash());
    assert_eq!(call.context.agent.raw_39(), &identity());
    assert_eq!(app.stage, Stage::AwaitingReply);
    assert_eq!(app.hc_response, "");

    assert_eq!(app.step(Event::Replied(Ok(record_reply()))), Action::Poll);
    assert_eq!(
        app.hc_response,
        "create: ie_hash: HeaderHash(uhCkk29vb29vb29vb29vb29vb29vb29vb29vb29vb29vb29vb29vb)"
    );
    assert_eq!(app.stage, Stage::Idle);
    assert_eq!(app.expr_state, ExprState::Valid(scheme(), expr()));
    assert_eq!(app.expr_input, "valid-expr-text");
}

#[test]
fn error_path_scenario() {
    let mut app = App::new();
    edit_and_validate(&mut app, "(", Err("unexpected end of input".to_string()), Ok(scheme()));
    match &app.expr_state {
        ExprState::Invalid(reason) => {
            assert!(reason.contains("parse error"));
            assert_eq!(reason, "parse error: unexpected end of input");
        }
        other => panic!("not invalid: {:?}", other),
    }
    let status_before = app.hc_response.clone();
    let state_before = app.expr_state.clone();
    assert_eq!(app.step(Event::Key(Key::Char('c'))), Action::Poll);
    assert_eq!(app.hc_response, status_before);
    assert_eq!(app.expr_state, state_before);
    assert_eq!(app.stage, Stage::Idle);
    assert_eq!(app.submit(), Action::Poll);
    assert_eq!(app.hc_response, status_before);
    assert_eq!(app.stage, Stage::Idle);
}

#[test]
fn submit_is_a_no_op_on_the_initial_state() {
    let mut app = App::new();
    assert_eq!(app.submit(), Action::Poll);
    assert_eq!(app, App::new());
}

#[test]
fn submit_keeps_an_earlier_status_when_invalid() {
    let mut app = awaiting_reply();
    app.step(Event::Replied(Ok(record_reply())));
    let status = app.hc_response.clone();
    edit_and_validate(&mut app, "(", Err("eof".to_string()), Ok(scheme()));
    assert_eq!(app.step(Event::Key(Key::Char('c'))), Action::Poll);
    assert_eq!(app.hc_response, status);
}

#[test]
fn new_submission_overwrites_the_status() {
    let mut app = awaiting_reply();
    app.step(Event::Replied(Ok(record_reply())));
    app.step(Event::Key(Key::Char('c')));
    assert_eq!(app.step(Event::BundleRead(Err("gone".to_string()))), Action::Poll);
    assert_eq!(app.hc_response, "error: BundleReadError: gone");
}

#[test]
fn bundle_read_failure_becomes_the_status() {
    let mut app = valid_app();
    app.step(Event::Key(Key::Char('c')));
    assert_eq!(
        app.step(Event::BundleRead(Err("No such file or directory".to_string()))),
        Action::Poll
    );
    assert_eq!(app.hc_response, "error: BundleReadError: No such file or directory");
    assert_eq!(app.stage, Stage::Idle);
    assert_eq!(app.expr_state, ExprState::Valid(scheme(), expr()));
}

#[test]
fn bundle_conversion_failure_becomes_the_status() {
    let mut app = valid_app();
    app.step(Event::Key(Key::Char('c')));
    app.step(Event::BundleRead(Ok(vec![0])));
    assert_eq!(app.step(Event::BundleConverted(Err("bad bundle".to_string()))), Action::Poll);
    assert_eq!(app.hc_response, "error: BundleConversionError: bad bundle");
    assert_eq!(app.stage, Stage::Idle);
}

#[test]
fn malformed_bundle_hash_is_a_conversion_failure() {
    let mut app = valid_app();
    app.step(Event::Key(Key::Char('c')));
    app.step(Event::BundleRead(Ok(vec![0])));
    assert_eq!(app.step(Event::BundleConverted(Ok(identity()))), Action::Poll);
    assert_eq!(
        app.hc_response,
        "error: BundleConversionError: the bundle's hash is not a 39-byte bundle identifier"
    );
    assert_eq!(app.stage, Stage::Idle);
}

#[test]
fn payload_failure_becomes_the_status() {
    let mut app = valid_app();
    app.step(Event::Key(Key::Char('c')));
    app.step(Event::BundleRead(Ok(vec![0])));
    app.step(Event::BundleConverted(Ok(bundle_hash())));
    assert_eq!(app.step(Event::PayloadEncoded(Err("depth limit".to_string()))), Action::Poll);
    assert_eq!(app.hc_response, "error: PayloadEncodingError: depth limit");
    assert_eq!(app.stage, Stage::Idle);
}

#[test]
fn transport_failure_becomes_the_status() {
    let mut app = awaiting_reply();
    assert_eq!(
        app.step(Event::Replied(Err(RpcError::Transport("connection closed".to_string())))),
        Action::Poll
    );
    assert_eq!(app.hc_response, "error: RpcTransportError: connection closed");
    assert_eq!(app.stage, Stage::Idle);
}

#[test]
fn rejection_becomes_the_status() {
    let mut app = awaiting_reply();
    assert_eq!(
        app.step(Event::Replied(Err(RpcError::Rejection("CellMissing".to_string())))),
        Action::Poll
    );
    assert_eq!(app.hc_response, "error: RpcRejectionError: CellMissing");
}

#[test]
fn undecodable_reply_becomes_the_status() {
    let mut app = awaiting_reply();
    assert_eq!(app.step(Event::Replied(Ok(vec![0xc0]))), Action::Poll);
    assert_eq!(
        app.hc_response,
        "error: ReplyDecodingError: the reply is not a 39-byte record identifier"
    );
    let mut app = awaiting_reply();
    let mut reply = vec![0xc4, 39];
    reply.extend(identity());
    app.step(Event::Replied(Ok(reply)));
    assert_eq!(
        app.hc_response,
        "error: ReplyDecodingError: the reply is not a 39-byte record identifier"
    );
}

#[test]
fn arguments_go_with_the_expression() {
    let mut app = valid_app();
    app.args = vec![vec![1, 2], vec![], vec![3]];
    app.step(Event::Key(Key::Char('c')));
    app.step(Event::BundleRead(Ok(vec![0])));
    assert_eq!(
        app.step(Event::BundleConverted(Ok(bundle_hash()))),
        Action::EncodePayload { expr: expr(), args: vec![vec![1, 2], vec![], vec![3]] }
    );
    assert_eq!(app.args, vec![vec![1, 2], vec![], vec![3]]);
}

#[test]
fn other_keys_are_ignored() {
    let mut app = valid_app();
    let before = format!("{:?}", app);
    assert_eq!(app.step(Event::Key(Key::Char('x'))), Action::Poll);
    assert_eq!(app.step(Event::Key(Key::Other)), Action::Poll);
    assert_eq!(app.step(Event::Key(Key::Char('C'))), Action::Poll);
    assert_eq!(format!("{:?}", app), before);
}

#[test]
fn keys_wait_while_a_submission_is_in_flight() {
    let mut app = awaiting_reply();
    assert_eq!(app.step(Event::Key(Key::Char('c'))), Action::Nothing);
    assert_eq!(app.step(Event::Key(Key::Char('e'))), Action::Nothing);
    assert_eq!(app.step(Event::Key(Key::Other)), Action::Nothing);
    assert_eq!(app.stage, Stage::AwaitingReply);
    assert_eq!(app.submit(), Action::Nothing);
    assert_eq!(app.stage, Stage::AwaitingReply);
}

#[test]
fn results_that_nobody_waits_for_change_nothing() {
    let mut app = valid_app();
    assert_eq!(app.step(Event::Replied(Ok(record_reply()))), Action::Nothing);
    assert_eq!(app.step(Event::Edited("x".to_string())), Action::Nothing);
    assert_eq!(app.step(Event::Parsed(Err("e".to_string()))), Action::Nothing);
    assert_eq!(app.step(Event::Inferred(Ok(scheme()))), Action::Nothing);
    assert_eq!(app.step(Event::BundleRead(Ok(vec![]))), Action::Nothing);
    assert_eq!(app.step(Event::BundleConverted(Ok(bundle_hash()))), Action::Nothing);
    assert_eq!(app.step(Event::PayloadEncoded(Ok(vec![]))), Action::Nothing);
    assert_eq!(app, valid_app());

    let mut waiting = awaiting_reply();
    assert_eq!(waiting.step(Event::PayloadEncoded(Ok(vec![]))), Action::Nothing);
    assert_eq!(waiting, awaiting_reply());
}

#[test]
fn exit_stops_an_idle_loop() {
    let mut app = valid_app();
    assert_eq!(app.step(Event::Key(Key::Char('q'))), Action::Quit);
    assert_eq!(app.stage, Stage::Stopped);
    assert_eq!(app.expr_state, ExprState::Valid(scheme(), expr()));
}

#[test]
fn exit_stops_every_stage() {
    let mut editing = App::new();
    editing.step(Event::Key(Key::Char('e')));
    assert_eq!(editing.stage, Stage::Editing);
    assert_eq!(editing.step(Event::Key(Key::Char('q'))), Action::Quit);
    assert_eq!(editing.stage, Stage::Stopped);

    let mut parsing = App::new();
    parsing.revalidate();
    assert_eq!(parsing.step(Event::Key(Key::Char('q'))), Action::Quit);
    assert_eq!(parsing.stage, Stage::Stopped);

    let mut reading = valid_app();
    reading.step(Event::Key(Key::Char('c')));
    assert_eq!(reading.step(Event::Key(Key::Char('q'))), Action::Quit);
    assert_eq!(reading.stage, Stage::Stopped);

    let mut waiting = awaiting_reply();
    assert_eq!(waiting.step(Event::Key(Key::Char('q'))), Action::Quit);
    assert_eq!(waiting.stage, Stage::Stopped);
}

#[test]
fn nothing_is_dispatched_after_exit() {
    let mut app = awaiting_reply();
    app.step(Event::Key(Key::Char('q')));
    let stopped = format!("{:?}", app);
    assert_eq!(app.step(Event::Replied(Ok(record_reply()))), Action::Nothing);
    assert_eq!(app.step(Event::Key(Key::Char('c'))), Action::Nothing);
    assert_eq!(app.step(Event::Key(Key::Char('e'))), Action::Nothing);
    assert_eq!(app.step(Event::Key(Key::Char('q'))), Action::Nothing);
    assert_eq!(app.step(Event::PayloadEncoded(Ok(vec![1]))), Action::Nothing);
    assert_eq!(app.submit(), Action::Nothing);
    assert_eq!(app.revalidate(), Action::Nothing);
    assert_eq!(format!("{:?}", app), stopped);
    assert_eq!(app.hc_response, "");
}
