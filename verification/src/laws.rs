//! What holds of every run of the loop.

use crate::app::command_of;
use crate::app::edited;
use crate::app::submission_begun;
use crate::app::transition;
use crate::app::validation_begun;
use crate::app::ActionView;
use crate::app::AppView;
use crate::app::Command;
use crate::app::EventView;
use crate::app::Key;
use crate::app::StageView;
use crate::validation::accepted;
use crate::validation::law_validation_verdict;
use crate::validation::validation_of;
use crate::validation::ExprStateView;
use crate::validation::ParsedView;
use crate::validation::SchemeView;
use vstd::prelude::*;

verus! {

/// The state after one validation of the buffer: the parser is asked, and
/// inference is asked where the loop wants it. `parse` and `inference` are
/// the front end's answers for the buffer.
pub open spec fn revalidated(
    app: AppView,
    parse: Result<ParsedView, Seq<char>>,
    inference: Result<SchemeView, Seq<char>>,
) -> AppView {
    let parsing = validation_begun(app).0;
    let (parsed, action) = transition(parsing, EventView::Parsed(parse));
    if action is Infer {
        transition(parsed, EventView::Inferred(inference)).0
    } else {
        parsed
    }
}

/// The stage belongs to a submission in flight.
pub open spec fn submitting(stage: StageView) -> bool {
    stage is ReadingBundle || stage is ConvertingBundle || stage is EncodingPayload
        || stage is AwaitingReply
}

/// Editing and validating, from an idle loop: the buffer holds the new
/// text, and the state is valid exactly when the front end accepts the text.
/// In every other case it is invalid with a diagnostic that is not empty.
/// The status is untouched and the loop is idle again.
pub proof fn law_edit_and_validate(
    app: AppView,
    text: Seq<char>,
    parse: Result<ParsedView, Seq<char>>,
    inference: Result<SchemeView, Seq<char>>,
)
    requires
        app.stage is Idle,
    ensures
        revalidated(edited(app, text), parse, inference) == (AppView {
            expr_input: text,
            expr_state: validation_of(parse, inference),
            ..app
        }),
        revalidated(edited(app, text), parse, inference).expr_state is Valid <==> accepted(
            parse,
            inference,
        ),
        !accepted(parse, inference) ==> (revalidated(
            edited(app, text),
            parse,
            inference,
        ).expr_state matches ExprStateView::Invalid(reason) && reason.len() > 0),
{
    law_validation_verdict(parse, inference);
}

/// Validating twice in a row, with no edit in between and the same answers
/// of the front end, gives the same state both times.
pub proof fn law_revalidate_idempotent(
    app: AppView,
    parse: Result<ParsedView, Seq<char>>,
    inference: Result<SchemeView, Seq<char>>,
)
    requires
        app.stage is Idle,
    ensures
        revalidated(revalidated(app, parse, inference), parse, inference) == revalidated(
            app,
            parse,
            inference,
        ),
{
}

/// With an invalid expression, submitting is a no-op: the state does not
/// change and no outside work is asked for, so nothing reaches the ledger
/// node. This holds of the call itself and of the confirm key.
pub proof fn law_submit_gate(app: AppView, key: Key)
    requires
        app.expr_state is Invalid,
        command_of(key) == Command::Confirm,
    ensures
        submission_begun(app).0 == app,
        !submission_begun(app).1.asks_for_work(),
        transition(app, EventView::Key(key)).0 == app,
        !transition(app, EventView::Key(key)).1.asks_for_work(),
{
}

/// The exit command stops the loop from every state, whatever validation or
/// submission is pending: the action is to quit, and nothing else changes.
pub proof fn law_exit_stops(app: AppView, key: Key)
    requires
        command_of(key) == Command::Exit,
    ensures
        transition(app, EventView::Key(key)).0 == (AppView { stage: StageView::Stopped, ..app }),
        !(app.stage is Stopped) ==> transition(app, EventView::Key(key)).1 == ActionView::Quit,
        !transition(app, EventView::Key(key)).1.asks_for_work(),
{
}

/// A stopped loop is at its end: every event leaves it as it is, and it
/// asks for nothing.
pub proof fn law_stopped_is_terminal(app: AppView, event: EventView)
    requires
        app.stage is Stopped,
    ensures
        transition(app, event) == (app, ActionView::Nothing),
{
}

/// The state after a run of events.
pub open spec fn run(app: AppView, events: Seq<EventView>) -> AppView
    decreases events.len(),
{
    if events.len() == 0 {
        app
    } else {
        run(transition(app, events[0]).0, events.drop_first())
    }
}

/// `action` is the answer to one of the events of a run from `app`.
pub open spec fn asked_during(app: AppView, events: Seq<EventView>, action: ActionView) -> bool
    decreases events.len(),
{
    events.len() > 0 && (transition(app, events[0]).1 == action || asked_during(
        transition(app, events[0]).0,
        events.drop_first(),
        action,
    ))
}

/// After the exit command no run of events dispatches anything: the loop
/// stays stopped, and every answer is to do nothing.
pub proof fn law_nothing_after_exit(
    app: AppView,
    key: Key,
    events: Seq<EventView>,
    action: ActionView,
)
    requires
        command_of(key) == Command::Exit,
        asked_during(transition(app, EventView::Key(key)).0, events, action),
    ensures
        action == ActionView::Nothing,
        run(transition(app, EventView::Key(key)).0, events) == transition(
            app,
            EventView::Key(key),
        ).0,
{
    let stopped = transition(app, EventView::Key(key)).0;
    lemma_stopped_run(stopped, events, action);
}

proof fn lemma_stopped_run(app: AppView, events: Seq<EventView>, action: ActionView)
    requires
        app.stage is Stopped,
    ensures
        run(app, events) == app,
        asked_during(app, events, action) ==> action == ActionView::Nothing,
    decreases events.len(),
{
    if events.len() > 0 {
        lemma_stopped_run(app, events.drop_first(), action);
    }
}

/// A submission in flight touches neither the buffer nor the validation
/// state nor the arguments, whatever arrives.
pub proof fn law_submission_keeps_validation(app: AppView, event: EventView)
    requires
        submitting(app.stage),
    ensures
        transition(app, event).0.expr_input == app.expr_input,
        transition(app, event).0.expr_state == app.expr_state,
        transition(app, event).0.args == app.args,
{
}

/// One submission at a time: while the loop is not idle, no key but the
/// exit key has any effect, so no second submission can begin.
pub proof fn law_single_flight(app: AppView, key: Key)
    requires
        !(app.stage is Idle),
        command_of(key) != Command::Exit,
    ensures
        transition(app, EventView::Key(key)) == (app, ActionView::Nothing),
{
}

/// Only the reply of the ledger node brings an invocation to an end, and an
/// invocation is asked for only once the payload is serialized.
pub proof fn law_invoke_follows_payload(app: AppView, event: EventView)
    requires
        transition(app, event).1.dispatches(),
    ensures
        app.stage is EncodingPayload,
        event matches EventView::PayloadEncoded(Ok(_)),
        transition(app, event).0.stage is AwaitingReply,
{
}

} // verus!
