use typestate_rust::repair_order::state_enum::{process, RepairOrder, State, Step};
use typestate_rust::repair_order::{Answers, Customer, Employee};

fn order(state: State) -> RepairOrder {
    RepairOrder {
        order_number: 23,
        damage_description: Some(String::from("broken mirror")),
        vehicle: String::from("grey coupe"),
        customer: Customer { has_outstanding_debt: false, is_banned: false },
        state,
    }
}

fn steps() -> Vec<String> {
    vec![String::from("unscrew"), String::from("replace")]
}

fn answers(is_valid: bool) -> Answers {
    Answers {
        is_valid,
        validation_errors: vec![String::from("no mirror in stock")],
        steps: steps(),
        invoice: String::from("invoice 23: 80"),
    }
}

#[test]
fn valid_order_runs_to_paid() {
    assert_eq!(
        process(order(State::New), answers(true)),
        order(State::Paid { invoice: String::from("invoice 23: 80") })
    );
}

#[test]
fn invalid_order_stops_at_invalid() {
    let end = process(order(State::New), answers(false));
    assert_eq!(
        end,
        order(State::Invalid { validation_errors: vec![String::from("no mirror in stock")] })
    );
    assert!(end.is_invalid());
}

#[test]
fn steps_change_the_state_only() {
    let mut current = order(State::New);
    current.validate(true, vec![]);
    assert_eq!(current, order(State::Valid));
    assert!(!current.is_invalid());
    current.start_progress(Employee, steps());
    assert_eq!(
        current,
        order(State::InProgress { assigned_technician: Employee, steps_left: steps() })
    );
    assert!(current.has_steps_left());
    current.work_on_next_step();
    assert_eq!(
        current,
        order(State::InProgress {
            assigned_technician: Employee,
            steps_left: vec![String::from("replace")],
        })
    );
    current.work();
    assert_eq!(current, order(State::WorkDone));
    current.send_invoice(String::from("invoice 23: 80"));
    assert_eq!(current, order(State::WaitingForPayment { invoice: String::from("invoice 23: 80") }));
    current.await_payment();
    assert_eq!(current, order(State::Paid { invoice: String::from("invoice 23: 80") }));
}

#[test]
fn no_steps_left_when_the_list_is_empty() {
    let idle = order(State::InProgress { assigned_technician: Employee, steps_left: vec![] });
    assert!(!idle.has_steps_left());
    let mut idle = idle;
    idle.work();
    assert_eq!(idle, order(State::WorkDone));
}

#[test]
fn validate_marks_invalid_orders() {
    let mut current = order(State::New);
    current.validate(false, vec![String::from("a"), String::from("b")]);
    assert_eq!(
        current,
        order(State::Invalid { validation_errors: vec![String::from("a"), String::from("b")] })
    );
}

fn every_state() -> Vec<State> {
    vec![
        State::New,
        State::Valid,
        State::Invalid { validation_errors: vec![String::from("no mirror in stock")] },
        State::InProgress { assigned_technician: Employee, steps_left: steps() },
        State::WorkDone,
        State::WaitingForPayment { invoice: String::from("invoice 23: 80") },
        State::Paid { invoice: String::from("invoice 23: 80") },
    ]
}

#[test]
fn each_step_starts_from_one_state() {
    let steps =
        [Step::Validate, Step::StartProgress, Step::Work, Step::SendInvoice, Step::AwaitPayment];
    let starts = [0usize, 1, 3, 4, 5];
    for (step, start) in steps.iter().zip(starts) {
        for (place, state) in every_state().iter().enumerate() {
            assert_eq!(state.admits(*step), place == start);
        }
    }
}

#[test]
fn terminal_states_admit_no_step() {
    for state in [
        State::Paid { invoice: String::from("i") },
        State::Invalid { validation_errors: vec![] },
    ] {
        for step in
            [Step::Validate, Step::StartProgress, Step::Work, Step::SendInvoice, Step::AwaitPayment]
        {
            assert!(!state.admits(step));
        }
    }
}
