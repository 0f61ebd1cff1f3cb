use example_app::app::messages::{Operation, Reply, Request};
use example_app::app::{App, DomainError};
use example_app::state::CalculatorState;

fn state_of(value: i32) -> CalculatorState {
    let mut state: CalculatorState = App::initial_state();
    state.set_value(value);
    state
}

#[test]
fn initial_state_is_zero() {
    assert_eq!(App::initial_state().value(), 0);
    assert_eq!(CalculatorState::default().value(), 0);
    assert_eq!(App::initial_state(), CalculatorState::default());
}

#[test]
fn add_five_to_the_initial_state() {
    let app: App = App::init();
    let mut state: CalculatorState = App::initial_state();
    let outcome = app.apply(&mut state, Request::new(Operation::Add, 5));
    assert_eq!(state.value(), 5);
    assert_eq!(outcome, Ok(Reply::new(5)));
    assert_eq!(outcome.unwrap().value(), 5);
}

#[test]
fn subtract_two_from_five() {
    let app: App = App::init();
    let mut state: CalculatorState = state_of(5);
    let outcome = app.apply(&mut state, Request::new(Operation::Sub, 2));
    assert_eq!(state.value(), 3);
    assert_eq!(outcome, Ok(Reply::new(3)));
}

#[test]
fn multiply_three_by_four() {
    let app: App = App::init();
    let mut state: CalculatorState = state_of(3);
    let outcome = app.apply(&mut state, Request::new(Operation::Mult, 4));
    assert_eq!(state.value(), 12);
    assert_eq!(outcome, Ok(Reply::new(12)));
}

#[test]
fn divide_by_zero_is_refused_and_changes_nothing() {
    let app: App = App::init();
    let mut state: CalculatorState = state_of(12);
    let outcome = app.apply(&mut state, Request::new(Operation::Divide, 0));
    assert_eq!(outcome, Err(DomainError::DivisionByZero));
    assert_eq!(state.value(), 12);
}

#[test]
fn remainder_by_zero_is_refused_and_changes_nothing() {
    let app: App = App::init();
    let mut state: CalculatorState = state_of(-9);
    let outcome = app.apply(&mut state, Request::new(Operation::Remainder, 0));
    assert_eq!(outcome, Err(DomainError::DivisionByZero));
    assert_eq!(state.value(), -9);
}

#[test]
fn negative_exponent_is_refused_and_changes_nothing() {
    let app: App = App::init();
    let mut state: CalculatorState = state_of(2);
    let outcome = app.apply(&mut state, Request::new(Operation::Exponent, -1));
    assert_eq!(outcome, Err(DomainError::NegativeExponent));
    assert_eq!(state.value(), 2);
    let outcome = app.apply(&mut state, Request::new(Operation::Exponent, i32::MIN));
    assert_eq!(outcome, Err(DomainError::NegativeExponent));
    assert_eq!(state.value(), 2);
}

#[test]
fn two_to_the_tenth() {
    let app: App = App::init();
    let mut state: CalculatorState = state_of(2);
    let outcome = app.apply(&mut state, Request::new(Operation::Exponent, 10));
    assert_eq!(state.value(), 1024);
    assert_eq!(outcome, Ok(Reply::new(1024)));
}

#[test]
fn the_scenario_in_one_run() {
    let app: App = App::init();
    let mut state: CalculatorState = App::initial_state();
    assert_eq!(app.update(&mut state, Request::new(Operation::Add, 5)), Reply::new(5));
    assert_eq!(app.update(&mut state, Request::new(Operation::Sub, 2)), Reply::new(3));
    assert_eq!(app.update(&mut state, Request::new(Operation::Mult, 4)), Reply::new(12));
    assert_eq!(app.update(&mut state, Request::new(Operation::Divide, 0)), Reply::new(12));
    assert_eq!(state.value(), 12);
    assert_eq!(app.update(&mut state, Request::new(Operation::Divide, 5)), Reply::new(2));
    assert_eq!(app.update(&mut state, Request::new(Operation::Exponent, 10)), Reply::new(1024));
    assert_eq!(app.update(&mut state, Request::new(Operation::Remainder, 1000)), Reply::new(24));
    assert_eq!(state.value(), 24);
}

#[test]
fn update_answers_a_refused_request_with_the_unchanged_value() {
    let app: App = App::init();
    let mut state: CalculatorState = state_of(7);
    assert_eq!(app.update(&mut state, Request::new(Operation::Remainder, 0)), Reply::new(7));
    assert_eq!(state.value(), 7);
    assert_eq!(app.update(&mut state, Request::new(Operation::Exponent, -3)), Reply::new(7));
    assert_eq!(state.value(), 7);
}

#[test]
fn unordered_execution_reads_and_leaves_the_state() {
    let app: App = App::init();
    let state: CalculatorState = state_of(41);
    let reply: Reply = app.unordered_execution(&state, Request::new(Operation::Add, 1));
    assert_eq!(reply.value(), 41);
    assert_eq!(state.value(), 41);
    let reply: Reply = app.unordered_execution(&state, Request::new(Operation::Divide, 0));
    assert_eq!(reply, Reply::new(41));
}

#[test]
fn addition_and_subtraction_wrap() {
    assert_eq!(App::compute(Operation::Add, i32::MAX, 1), Ok(i32::MIN));
    assert_eq!(App::compute(Operation::Add, i32::MIN, -1), Ok(i32::MAX));
    assert_eq!(App::compute(Operation::Sub, i32::MIN, 1), Ok(i32::MAX));
    assert_eq!(App::compute(Operation::Sub, 0, i32::MIN), Ok(i32::MIN));
    assert_eq!(App::compute(Operation::Add, 2_000_000_000, 2_000_000_000), Ok(-294_967_296));
}

#[test]
fn multiplication_wraps() {
    assert_eq!(App::compute(Operation::Mult, 65536, 65536), Ok(0));
    assert_eq!(App::compute(Operation::Mult, i32::MAX, 2), Ok(-2));
    assert_eq!(App::compute(Operation::Mult, i32::MIN, -1), Ok(i32::MIN));
    assert_eq!(App::compute(Operation::Mult, 123_456, 654_321), Ok(-824_525_248));
}

#[test]
fn division_rounds_towards_zero() {
    assert_eq!(App::compute(Operation::Divide, 7, 2), Ok(3));
    assert_eq!(App::compute(Operation::Divide, -7, 2), Ok(-3));
    assert_eq!(App::compute(Operation::Divide, 7, -2), Ok(-3));
    assert_eq!(App::compute(Operation::Divide, -7, -2), Ok(3));
    assert_eq!(App::compute(Operation::Divide, 0, -2), Ok(0));
    assert_eq!(App::compute(Operation::Divide, i32::MIN, -1), Ok(i32::MIN));
    assert_eq!(App::compute(Operation::Divide, i32::MIN, 1), Ok(i32::MIN));
}

#[test]
fn remainder_takes_the_sign_of_the_register() {
    assert_eq!(App::compute(Operation::Remainder, 7, 2), Ok(1));
    assert_eq!(App::compute(Operation::Remainder, -7, 2), Ok(-1));
    assert_eq!(App::compute(Operation::Remainder, 7, -2), Ok(1));
    assert_eq!(App::compute(Operation::Remainder, -7, -2), Ok(-1));
    assert_eq!(App::compute(Operation::Remainder, i32::MIN, -1), Ok(0));
    assert_eq!(App::compute(Operation::Remainder, 6, 3), Ok(0));
}

#[test]
fn powers() {
    assert_eq!(App::compute(Operation::Exponent, 7, 0), Ok(1));
    assert_eq!(App::compute(Operation::Exponent, 0, 0), Ok(1));
    assert_eq!(App::compute(Operation::Exponent, 0, 5), Ok(0));
    assert_eq!(App::compute(Operation::Exponent, -3, 3), Ok(-27));
    assert_eq!(App::compute(Operation::Exponent, -1, i32::MAX), Ok(-1));
    assert_eq!(App::compute(Operation::Exponent, 2, 31), Ok(i32::MIN));
    assert_eq!(App::compute(Operation::Exponent, 2, 32), Ok(0));
    assert_eq!(App::compute(Operation::Exponent, 3, 21), Ok(1_870_418_611));
    assert_eq!(App::compute(Operation::Exponent, 10, 10), Ok(1_410_065_408));
}

#[test]
fn equal_runs_end_equal() {
    let app: App = App::init();
    let requests: Vec<Request> = vec![
        Request::new(Operation::Add, 17),
        Request::new(Operation::Mult, -123_456),
        Request::new(Operation::Exponent, 3),
        Request::new(Operation::Divide, 0),
        Request::new(Operation::Sub, i32::MIN),
        Request::new(Operation::Remainder, 1_000),
        Request::new(Operation::Exponent, -2),
        Request::new(Operation::Divide, -7),
    ];
    let mut first: CalculatorState = App::initial_state();
    let mut second: CalculatorState = App::initial_state();
    for request in requests.iter() {
        let one = app.apply(&mut first, *request);
        let other = app.apply(&mut second, *request);
        assert_eq!(one, other);
        assert_eq!(first, second);
    }
    assert_eq!(first.value(), 50);
}

#[test]
fn request_comes_apart_as_it_was_made() {
    let request: Request = Request::new(Operation::Remainder, -8);
    assert_eq!(request.into(), (Operation::Remainder, -8));
}

#[test]
fn set_value_replaces_the_register() {
    let mut state: CalculatorState = App::initial_state();
    state.set_value(-5);
    assert_eq!(state.value(), -5);
    state.set_value(i32::MAX);
    assert_eq!(state.value(), i32::MAX);
}
