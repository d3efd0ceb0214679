//! Validation state: what the language front end said about the buffer the
//! last time it was asked.

use crate::hash::clone_bytes;
use crate::text::join;
use vstd::prelude::*;

verus! {

/// Mathematical value of a [`Scheme`].
pub struct SchemeView {
    pub text: Seq<char>,
}

/// An inferred type scheme, as the front end prints it.
#[derive(Debug, PartialEq, Eq)]
pub struct Scheme {
    pub text: String,
}

impl View for Scheme {
    type V = SchemeView;

    open spec fn view(&self) -> SchemeView {
        SchemeView { text: self.text@ }
    }
}

impl Clone for Scheme {
    fn clone(&self) -> (copy: Scheme)
        ensures
            copy@ == self@,
    {
        Scheme { text: self.text.clone() }
    }
}

/// Mathematical value of an [`Expr`].
pub struct ExprView {
    pub text: Seq<char>,
    pub encoding: Seq<u8>,
}

/// A parsed expression tree: how the front end prints it, and the bytes from
/// which the front end can rebuild it.
#[derive(Debug, PartialEq, Eq)]
pub struct Expr {
    pub text: String,
    pub encoding: Vec<u8>,
}

impl View for Expr {
    type V = ExprView;

    open spec fn view(&self) -> ExprView {
        ExprView { text: self.text@, encoding: self.encoding@ }
    }
}

impl Clone for Expr {
    fn clone(&self) -> (copy: Expr)
        ensures
            copy@ == self@,
    {
        Expr { text: self.text.clone(), encoding: clone_bytes(&self.encoding) }
    }
}

/// Mathematical value of an [`ExprState`].
pub enum ExprStateView {
    Valid(SchemeView, ExprView),
    Invalid(Seq<char>),
}

/// The validity of the buffer at the last validation.
#[derive(Debug, PartialEq, Eq)]
pub enum ExprState {
    /// Parsing and type inference succeeded.
    Valid(Scheme, Expr),
    /// They did not; the text says why.
    Invalid(String),
}

impl View for ExprState {
    type V = ExprStateView;

    open spec fn view(&self) -> ExprStateView {
        match self {
            ExprState::Valid(scheme, expr) => ExprStateView::Valid(scheme@, expr@),
            ExprState::Invalid(reason) => ExprStateView::Invalid(reason@),
        }
    }
}

impl Clone for ExprState {
    fn clone(&self) -> (copy: ExprState)
        ensures
            copy@ == self@,
    {
        match self {
            ExprState::Valid(scheme, expr) => ExprState::Valid(scheme.clone(), expr.clone()),
            ExprState::Invalid(reason) => ExprState::Invalid(reason.clone()),
        }
    }
}

impl ExprState {
    /// Whether the last validation succeeded.
    pub fn is_valid(&self) -> (valid: bool)
        ensures
            valid == (self@ is Valid),
    {
        match self {
            ExprState::Valid(_, _) => true,
            ExprState::Invalid(_) => false,
        }
    }
}

/// Mathematical value of a [`Parsed`].
pub struct ParsedView {
    pub expr: ExprView,
    pub leftover: Seq<char>,
}

/// A successful parse: the expression, and the input that the parser did not
/// consume.
#[derive(Debug, PartialEq, Eq)]
pub struct Parsed {
    pub expr: Expr,
    pub leftover: String,
}

impl View for Parsed {
    type V = ParsedView;

    open spec fn view(&self) -> ParsedView {
        ParsedView { expr: self.expr@, leftover: self.leftover@ }
    }
}

/// What the parser answered, over mathematical values.
pub open spec fn parse_outcome_view(outcome: Result<Parsed, String>) -> Result<
    ParsedView,
    Seq<char>,
> {
    match outcome {
        Ok(parsed) => Ok(parsed@),
        Err(error) => Err(error@),
    }
}

/// What type inference answered, over mathematical values.
pub open spec fn inference_outcome_view(outcome: Result<Scheme, String>) -> Result<
    SchemeView,
    Seq<char>,
> {
    match outcome {
        Ok(scheme) => Ok(scheme@),
        Err(error) => Err(error@),
    }
}

/// Diagnostic of a failed parse.
pub open spec fn parse_error_text(error: Seq<char>) -> Seq<char> {
    "parse error: "@ + error
}

/// Diagnostic of a parse that left input behind.
pub open spec fn leftover_text(leftover: Seq<char>) -> Seq<char> {
    "unconsumed input: "@ + leftover
}

/// Diagnostic of a failed type inference.
pub open spec fn type_error_text(error: Seq<char>) -> Seq<char> {
    "type error: "@ + error
}

/// Mathematical value of a [`Verdict`].
pub enum VerdictView {
    Settled(ExprStateView),
    NeedsInference(ExprView),
}

/// What follows from the parser's answer alone.
#[derive(Debug, PartialEq, Eq)]
pub enum Verdict {
    /// The validation state is decided.
    Settled(ExprState),
    /// The whole input parsed; the expression's type is still to be inferred.
    NeedsInference(Expr),
}

impl View for Verdict {
    type V = VerdictView;

    open spec fn view(&self) -> VerdictView {
        match self {
            Verdict::Settled(state) => VerdictView::Settled(state@),
            Verdict::NeedsInference(expr) => VerdictView::NeedsInference(expr@),
        }
    }
}

/// The verdict on a parser's answer: a failure and leftover input each settle
/// the state as invalid; a parse of the whole input asks for inference.
pub open spec fn after_parse(outcome: Result<ParsedView, Seq<char>>) -> VerdictView {
    match outcome {
        Err(error) => VerdictView::Settled(ExprStateView::Invalid(parse_error_text(error))),
        Ok(parsed) => if parsed.leftover.len() > 0 {
            VerdictView::Settled(ExprStateView::Invalid(leftover_text(parsed.leftover)))
        } else {
            VerdictView::NeedsInference(parsed.expr)
        },
    }
}

/// The validation state once inference has answered for `expr`.
pub open spec fn after_inference(
    expr: ExprView,
    outcome: Result<SchemeView, Seq<char>>,
) -> ExprStateView {
    match outcome {
        Ok(scheme) => ExprStateView::Valid(scheme, expr),
        Err(error) => ExprStateView::Invalid(type_error_text(error)),
    }
}

/// The validation state that the front end's two answers lead to. The answer
/// of inference counts only where the parser consumed the whole input.
pub open spec fn validation_of(
    parse: Result<ParsedView, Seq<char>>,
    inference: Result<SchemeView, Seq<char>>,
) -> ExprStateView {
    match after_parse(parse) {
        VerdictView::Settled(state) => state,
        VerdictView::NeedsInference(expr) => after_inference(expr, inference),
    }
}

/// Judges the parser's answer.
pub fn judge_parse(outcome: Result<Parsed, String>) -> (verdict: Verdict)
    ensures
        verdict@ == after_parse(parse_outcome_view(outcome)),
{
    match outcome {
        Err(error) => Verdict::Settled(ExprState::Invalid(join("parse error: ", error.as_str()))),
        Ok(parsed) => {
            if parsed.leftover.as_str().is_empty() {
                Verdict::NeedsInference(parsed.expr)
            } else {
                Verdict::Settled(
                    ExprState::Invalid(join("unconsumed input: ", parsed.leftover.as_str())),
                )
            }
        },
    }
}

/// Judges the answer of type inference for `expr`.
pub fn judge_inference(expr: Expr, outcome: Result<Scheme, String>) -> (state: ExprState)
    ensures
        state@ == after_inference(expr@, inference_outcome_view(outcome)),
{
    match outcome {
        Ok(scheme) => ExprState::Valid(scheme, expr),
        Err(error) => ExprState::Invalid(join("type error: ", error.as_str())),
    }
}

/// The front end accepts a text: it parses, nothing is left over, and its
/// type is inferred.
pub open spec fn accepted(
    parse: Result<ParsedView, Seq<char>>,
    inference: Result<SchemeView, Seq<char>>,
) -> bool {
    parse matches Ok(parsed) && parsed.leftover.len() == 0 && inference is Ok
}

/// The state is valid exactly when the front end accepts the text, and it
/// carries the scheme and the expression that the front end answered with.
/// In every other case the state is invalid and its diagnostic is not empty.
pub proof fn law_validation_verdict(
    parse: Result<ParsedView, Seq<char>>,
    inference: Result<SchemeView, Seq<char>>,
)
    ensures
        validation_of(parse, inference) is Valid <==> accepted(parse, inference),
        accepted(parse, inference) ==> validation_of(parse, inference) == ExprStateView::Valid(
            inference->Ok_0,
            parse->Ok_0.expr,
        ),
        validation_of(parse, inference) matches ExprStateView::Invalid(reason) ==> reason.len()
            > 0,
{
    reveal_strlit("parse error: ");
    reveal_strlit("unconsumed input: ");
    reveal_strlit("type error: ");
}

} // verus!
