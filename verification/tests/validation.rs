use frontend_tui::validation::judge_inference;
use frontend_tui::validation::judge_parse;
use frontend_tui::validation::Expr;
use frontend_tui::validation::ExprState;
use frontend_tui::validation::Parsed;
use frontend_tui::validation::Scheme;
use frontend_tui::validation::Verdict;

fn expr() -> Expr {
    Expr { text: "Lit(LInt(1))".to_string(), encoding: vec![0x81, 0xa3] }
}

fn scheme() -> Scheme {
    Scheme { text: "Scheme([], TCon(\"Int\"))".to_string() }
}

#[test]
fn parse_failure_is_invalid_with_the_error() {
    assert_eq!(
        judge_parse(Err("Parse error at line: 1, column: 2".to_string())),
        Verdict::Settled(ExprState::Invalid(
            "parse error: Parse error at line: 1, column: 2".to_string()
        ))
    );
}

#[test]
fn parse_failure_with_an_empty_error_still_has_a_diagnostic() {
    assert_eq!(
        judge_parse(Err(String::new())),
        Verdict::Settled(ExprState::Invalid("parse error: ".to_string()))
    );
}

#[test]
fn leftover_input_is_invalid_with_the_remainder() {
    assert_eq!(
        judge_parse(Ok(Parsed { expr: expr(), leftover: ") 2".to_string() })),
        Verdict::Settled(ExprState::Invalid("unconsumed input: ) 2".to_string()))
    );
}

#[test]
fn leftover_of_one_space_counts() {
    assert_eq!(
        judge_parse(Ok(Parsed { expr: expr(), leftover: " ".to_string() })),
        Verdict::Settled(ExprState::Invalid("unconsumed input:  ".to_string()))
    );
}

#[test]
fn whole_input_parsed_asks_for_inference() {
    assert_eq!(
        judge_parse(Ok(Parsed { expr: expr(), leftover: String::new() })),
        Verdict::NeedsInference(expr())
    );
}

#[test]
fn inference_success_is_valid() {
    assert_eq!(judge_inference(expr(), Ok(scheme())), ExprState::Valid(scheme(), expr()));
}

#[test]
fn inference_failure_is_invalid_with_the_error() {
    assert_eq!(
        judge_inference(expr(), Err("UnboundVariable(Name(\"x\"))".to_string())),
        ExprState::Invalid("type error: UnboundVariable(Name(\"x\"))".to_string())
    );
}

#[test]
fn is_valid_tells_the_variants_apart() {
    assert!(ExprState::Valid(scheme(), expr()).is_valid());
    assert!(!ExprState::Invalid("init".to_string()).is_valid());
    assert!(!ExprState::Invalid(String::new()).is_valid());
}

#[test]
fn clones_are_equal() {
    let valid = ExprState::Valid(scheme(), expr());
    assert_eq!(valid.clone(), valid);
    let invalid = ExprState::Invalid("type error: x".to_string());
    assert_eq!(invalid.clone(), invalid);
    assert_eq!(expr().clone(), expr());
    assert_eq!(scheme().clone(), scheme());
}
