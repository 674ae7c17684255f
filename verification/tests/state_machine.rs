use unary::action::Action;
use unary::pallet::{Call, Config, Error, Event, Pallet};

#[derive(Debug, PartialEq, Eq)]
struct TestRuntime;

impl Config for TestRuntime {
    type AccountId = u64;
}

const ALICE: u64 = 1;
const BOB: u64 = 2;

#[test]
fn fresh_store_reads_defaults() {
    let p: Pallet<TestRuntime> = Pallet::new();
    assert_eq!(p.unary_action(), Some(Action::Increment));
    assert_eq!(p.unary_number(), 0);
}

#[test]
fn default_is_the_fresh_machine() {
    let p: Pallet<TestRuntime> = Default::default();
    assert_eq!(p.unary_action(), Some(Action::Increment));
    assert_eq!(p.unary_number(), 0);
}

#[test]
fn toggle_flips_and_reports_new_mode() {
    let mut p: Pallet<TestRuntime> = Pallet::new();
    let r = p.toggle_action(ALICE);
    assert_eq!(r, Ok(Event::ToggleAction(ALICE, Action::Decrement)));
    assert_eq!(p.unary_action(), Some(Action::Decrement));
    assert_eq!(p.unary_number(), 0);
}

#[test]
fn toggle_twice_restores_mode() {
    let mut p: Pallet<TestRuntime> = Pallet::new();
    let before = p.unary_action();
    assert!(p.toggle_action(ALICE).is_ok());
    assert!(p.toggle_action(BOB).is_ok());
    assert_eq!(p.unary_action(), before);
    assert_eq!(p.unary_number(), 0);
}

#[test]
fn toggle_odd_number_of_times_flips_once() {
    let mut p: Pallet<TestRuntime> = Pallet::new();
    for _ in 0..5 {
        assert!(p.toggle_action(ALICE).is_ok());
    }
    assert_eq!(p.unary_action(), Some(Action::Decrement));
}

#[test]
fn increment_succeeds_from_zero() {
    let mut p: Pallet<TestRuntime> = Pallet::new();
    let r = p.make_action(ALICE);
    assert_eq!(r, Ok(Event::ActionMade(ALICE, Action::Increment, 1)));
    assert_eq!(p.unary_number(), 1);
}

#[test]
fn increment_succeeds_from_any_counter_value() {
    let mut p: Pallet<TestRuntime> = Pallet::new();
    for expected in 1..=6 {
        let r = p.make_action(ALICE);
        assert_eq!(r, Ok(Event::ActionMade(ALICE, Action::Increment, expected)));
        assert_eq!(p.unary_number(), expected);
    }
}

#[test]
fn decrement_at_zero_fails_and_changes_nothing() {
    let mut p: Pallet<TestRuntime> = Pallet::new();
    assert!(p.toggle_action(ALICE).is_ok());
    let r = p.make_action(BOB);
    assert_eq!(r, Err(Error::CannotGoBelowZero));
    assert_eq!(p.unary_number(), 0);
    assert_eq!(p.unary_action(), Some(Action::Decrement));
}

#[test]
fn decrement_from_one_reaches_zero() {
    let mut p: Pallet<TestRuntime> = Pallet::new();
    assert!(p.make_action(ALICE).is_ok());
    assert!(p.toggle_action(ALICE).is_ok());
    let r = p.make_action(BOB);
    assert_eq!(r, Ok(Event::ActionMade(BOB, Action::Decrement, 0)));
    assert_eq!(p.unary_number(), 0);
}

#[test]
fn notification_value_matches_post_call_counter() {
    let mut p: Pallet<TestRuntime> = Pallet::new();
    for _ in 0..3 {
        let r = p.make_action(ALICE);
        match r {
            Ok(Event::ActionMade(who, action, value)) => {
                assert_eq!(who, ALICE);
                assert_eq!(action, Action::Increment);
                assert_eq!(value, p.unary_number());
            }
            other => panic!("expected an ActionMade notification, got {:?}", other),
        }
    }
    assert!(p.toggle_action(ALICE).is_ok());
    let r = p.make_action(BOB);
    assert_eq!(r, Ok(Event::ActionMade(BOB, Action::Decrement, p.unary_number())));
}

#[test]
fn failed_call_emits_no_notification() {
    let mut p: Pallet<TestRuntime> = Pallet::new();
    assert!(p.toggle_action(ALICE).is_ok());
    let r = p.make_action(ALICE);
    assert!(matches!(r, Err(Error::CannotGoBelowZero)));
}

#[test]
fn scenario_toggle_fail_toggle_succeed() {
    let mut p: Pallet<TestRuntime> = Pallet::new();

    let r = p.toggle_action(ALICE);
    assert_eq!(r, Ok(Event::ToggleAction(ALICE, Action::Decrement)));

    let r = p.make_action(ALICE);
    assert_eq!(r, Err(Error::CannotGoBelowZero));
    assert_eq!(p.unary_number(), 0);

    let r = p.toggle_action(ALICE);
    assert_eq!(r, Ok(Event::ToggleAction(ALICE, Action::Increment)));

    let r = p.make_action(ALICE);
    assert_eq!(r, Ok(Event::ActionMade(ALICE, Action::Increment, 1)));
    assert_eq!(p.unary_number(), 1);
}

#[test]
fn dispatch_routes_each_call_to_its_handler() {
    let mut p: Pallet<TestRuntime> = Pallet::new();
    let r = p.dispatch(Call::MakeAction, ALICE);
    assert_eq!(r, Ok(Event::ActionMade(ALICE, Action::Increment, 1)));
    let r = p.dispatch(Call::ToggleAction, BOB);
    assert_eq!(r, Ok(Event::ToggleAction(BOB, Action::Decrement)));
    let r = p.dispatch(Call::MakeAction, BOB);
    assert_eq!(r, Ok(Event::ActionMade(BOB, Action::Decrement, 0)));
    assert_eq!(p.unary_number(), 0);
    assert_eq!(p.unary_action(), Some(Action::Decrement));
}
