use webcalc::calc::CalcState;
use webcalc::error::CalcError;
use webcalc::evaluator::{plan_evaluation, EvalPlan};
use webcalc::ops::{get_operation, is_operator, is_operator_char, step_action, Operations, StepAction};
use webcalc::templates::{calculator_keys, IndexTemplate};
use webcalc::tokenizer::{join_tokens, tokenize};

fn strings(items: &[&str]) -> Vec<String> {
    items.iter().map(|s| s.to_string()).collect()
}

fn read(text: &str) -> Result<f64, CalcError> {
    text.parse::<f64>().map_err(|_| CalcError::ParsingFailed)
}

fn run(plan: &EvalPlan) -> Result<f64, CalcError> {
    let mut result = read(&plan.first)?;
    for step in &plan.steps {
        let num = read(&step.operand)?;
        result = match step_action(step.operation, num == 0.0) {
            StepAction::Add => result + num,
            StepAction::Subtract => result - num,
            StepAction::Multiply => result * num,
            StepAction::Divide => result / num,
            StepAction::Zero => 0.0,
            StepAction::Keep => result,
        };
    }
    Ok(result)
}

fn evaluate(state: &mut CalcState) -> Result<Vec<String>, CalcError> {
    let outcome = state.evaluation_plan().and_then(|plan| run(&plan)).map(|x| x.to_string());
    state.apply_outcome(outcome)
}

fn percent_of_first(state: &mut CalcState) -> Result<Vec<String>, CalcError> {
    let outcome = state.first_token().and_then(|t| read(&t)).map(|x| (x / 100.0).to_string());
    state.apply_outcome(outcome)
}

fn filled(tokens: &[&str]) -> CalcState {
    let mut state = CalcState::new();
    for t in tokens {
        state.push(t.to_string());
    }
    state
}

#[test]
fn push_returns_contents_in_entry_order() {
    let mut state = CalcState::new();
    assert_eq!(state.push("1".to_string()), strings(&["1"]));
    assert_eq!(state.push("+".to_string()), strings(&["1", "+"]));
    assert_eq!(state.push("oops".to_string()), strings(&["1", "+", "oops"]));
}

#[test]
fn push_then_clear_is_empty() {
    let mut state = filled(&["7", "*", "x", ""]);
    state.push("9".to_string());
    assert_eq!(state.clear_all(), Vec::<String>::new());
    assert!(state.contents().is_empty());
}

#[test]
fn pop_last_on_empty_is_noop() {
    let mut state = CalcState::new();
    assert_eq!(state.pop_last(), Vec::<String>::new());
    assert!(state.contents().is_empty());
}

#[test]
fn pop_last_removes_last_token() {
    let mut state = filled(&["1", "2", "+"]);
    assert_eq!(state.pop_last(), strings(&["1", "2"]));
}

#[test]
fn tokenize_merges_digits_and_splits_operators() {
    let tokens = tokenize(&strings(&["1", "2", ".", "5", "+", "3", "4", "/", "2"]));
    assert_eq!(tokens, strings(&["12.5", "+", "34", "/", "2"]));
}

#[test]
fn tokenize_splits_inside_a_token() {
    assert_eq!(tokenize(&strings(&["12+3", "-4"])), strings(&["12", "+", "3", "-", "4"]));
    assert_eq!(tokenize(&strings(&["-", "5", "*", "*"])), strings(&["-", "5", "*", "*"]));
    assert_eq!(tokenize(&strings(&[])), Vec::<String>::new());
    assert_eq!(join_tokens(&strings(&["1", "", "+2"])), "1+2".to_string());
}

#[test]
fn alternating_expression_folds_left_to_right() {
    let state = filled(&["1", "2", "+", "3", "4", "*", "2", "-", "1", "0", "/", "4"]);
    let plan = state.evaluation_plan().unwrap();
    assert_eq!(plan.first, "12");
    let steps: Vec<(Operations, String)> =
        plan.steps.iter().map(|s| (s.operation, s.operand.clone())).collect();
    assert_eq!(
        steps,
        vec![
            (Operations::Add, "34".to_string()),
            (Operations::Multiply, "2".to_string()),
            (Operations::Subtract, "10".to_string()),
            (Operations::Divide, "4".to_string()),
        ]
    );
    let manual = (((12.0 + 34.0) * 2.0) - 10.0) / 4.0;
    assert_eq!(run(&plan).unwrap(), manual);
    assert_eq!(manual, 20.5);
}

#[test]
fn divide_by_zero_step_gives_zero() {
    assert_eq!(step_action(Operations::Divide, true), StepAction::Zero);
    assert_eq!(step_action(Operations::Divide, false), StepAction::Divide);
    let mut state = filled(&["5", "/", "0", "+", "3"]);
    assert_eq!(evaluate(&mut state).unwrap(), strings(&["3"]));
    let mut state = filled(&["5", "/", "0", ".", "0"]);
    assert_eq!(evaluate(&mut state).unwrap(), strings(&["0"]));
}

#[test]
fn unknown_operator_is_identity() {
    let plan = plan_evaluation(&strings(&["5", "?", "3"])).unwrap();
    assert_eq!(plan.steps.len(), 1);
    assert_eq!(plan.steps[0].operation, Operations::NoneFound);
    assert_eq!(run(&plan).unwrap(), 5.0);
    assert_eq!(step_action(Operations::NoneFound, true), StepAction::Keep);
    assert_eq!(step_action(Operations::NoneFound, false), StepAction::Keep);
}

#[test]
fn trailing_operator_is_ignored() {
    let plan = plan_evaluation(&strings(&["5", "+"])).unwrap();
    assert!(plan.steps.is_empty());
    let mut state = filled(&["5", "+", "3", "*"]);
    assert_eq!(evaluate(&mut state).unwrap(), strings(&["8"]));
}

#[test]
fn plan_of_empty_tokens_is_empty_buffer() {
    assert!(matches!(plan_evaluation(&Vec::new()), Err(CalcError::EmptyBuffer)));
}

#[test]
fn scenario_sum_of_two_numbers() {
    let mut state = filled(&["1", "2", "+", "3", "4"]);
    assert_eq!(evaluate(&mut state).unwrap(), strings(&["46"]));
    assert_eq!(state.contents(), strings(&["46"]));
}

#[test]
fn scenario_divide_by_zero() {
    let mut state = filled(&["8", "/", "0"]);
    assert_eq!(evaluate(&mut state).unwrap(), strings(&["0"]));
    assert_eq!(state.contents(), strings(&["0"]));
}

#[test]
fn scenario_percent() {
    let mut state = filled(&["50"]);
    assert_eq!(percent_of_first(&mut state).unwrap(), strings(&["0.5"]));
    assert_eq!(state.contents(), strings(&["0.5"]));
}

#[test]
fn scenario_evaluate_empty() {
    let mut state = CalcState::new();
    assert!(matches!(evaluate(&mut state), Err(CalcError::EmptyBuffer)));
    assert!(state.contents().is_empty());
}

#[test]
fn scenario_evaluate_non_numeric() {
    let mut state = filled(&["a"]);
    assert!(matches!(evaluate(&mut state), Err(CalcError::ParsingFailed)));
    assert_eq!(state.contents(), strings(&["a"]));
}

#[test]
fn scenario_no_precedence() {
    let mut state = filled(&["2", "*", "3", "-", "1"]);
    assert_eq!(evaluate(&mut state).unwrap(), strings(&["5"]));
}

#[test]
fn evaluate_empty_text_is_empty_buffer() {
    let mut state = filled(&["", ""]);
    assert!(matches!(evaluate(&mut state), Err(CalcError::EmptyBuffer)));
    assert_eq!(state.contents(), strings(&["", ""]));
}

#[test]
fn consecutive_operators_fail_to_parse() {
    let mut state = filled(&["5", "+", "+", "3"]);
    assert!(matches!(evaluate(&mut state), Err(CalcError::ParsingFailed)));
    assert_eq!(state.contents(), strings(&["5", "+", "+", "3"]));
    let mut state = filled(&["-", "5"]);
    assert!(matches!(evaluate(&mut state), Err(CalcError::ParsingFailed)));
}

#[test]
fn percent_of_first_errors() {
    let mut state = CalcState::new();
    assert!(matches!(percent_of_first(&mut state), Err(CalcError::EmptyBuffer)));
    assert!(state.contents().is_empty());
    let mut state = filled(&["x", "5"]);
    assert!(matches!(percent_of_first(&mut state), Err(CalcError::ParsingFailed)));
    assert_eq!(state.contents(), strings(&["x", "5"]));
    let mut state = filled(&["25", "+", "1"]);
    assert_eq!(percent_of_first(&mut state).unwrap(), strings(&["0.25"]));
}

#[test]
fn first_token_of_buffer() {
    assert_eq!(filled(&["12", "+"]).first_token().unwrap(), "12");
    assert!(matches!(CalcState::new().first_token(), Err(CalcError::EmptyBuffer)));
}

#[test]
fn apply_outcome_keeps_buffer_on_error() {
    let mut state = filled(&["1", "+"]);
    assert!(matches!(state.apply_outcome(Err(CalcError::ParsingFailed)), Err(CalcError::ParsingFailed)));
    assert_eq!(state.contents(), strings(&["1", "+"]));
    assert_eq!(state.apply_outcome(Ok("7".to_string())).unwrap(), strings(&["7"]));
}

#[test]
fn operators_resolve() {
    assert!(matches!(get_operation("+".to_string()), Ok(Operations::Add)));
    assert!(matches!(get_operation("-".to_string()), Ok(Operations::Subtract)));
    assert!(matches!(get_operation("*".to_string()), Ok(Operations::Multiply)));
    assert!(matches!(get_operation("/".to_string()), Ok(Operations::Divide)));
    assert!(matches!(get_operation("%".to_string()), Ok(Operations::NoneFound)));
    assert!(matches!(get_operation("++".to_string()), Ok(Operations::NoneFound)));
    assert!(matches!(get_operation(String::new()), Ok(Operations::NoneFound)));
}

#[test]
fn operator_recognition() {
    assert!(is_operator("+") && is_operator("-") && is_operator("*") && is_operator("/"));
    assert!(!is_operator("+-") && !is_operator("") && !is_operator("7") && !is_operator("="));
    assert!(is_operator_char('/') && !is_operator_char('.'));
}

#[test]
fn step_actions_follow_operation() {
    assert_eq!(step_action(Operations::Add, true), StepAction::Add);
    assert_eq!(step_action(Operations::Subtract, false), StepAction::Subtract);
    assert_eq!(step_action(Operations::Multiply, true), StepAction::Multiply);
}

#[test]
fn error_messages() {
    assert_eq!(CalcError::ParsingFailed.message(), "Failed to parse data");
    assert_eq!(CalcError::EmptyBuffer.message(), "Nothing to calculate");
    assert_eq!(CalcError::InternalServer("boom".to_string()).message(), "boom");
}

#[test]
fn index_page_has_all_keys() {
    let keys = calculator_keys();
    assert_eq!(
        keys,
        strings(&["CE", "C", "%", "/", "7", "8", "9", "*", "4", "5", "6", "-", "1", "2", "3", "+", ".", "0", ".", "="])
    );
    let page = IndexTemplate::new(strings(&["4"]));
    assert_eq!(page.calc_input, keys);
    assert_eq!(page.screen_content, strings(&["4"]));
}
