use typestate_rust::repair_order::typestate::{
    process, process_fluent, InProgress, Invalid, New, Paid, RepairOrder, Valid,
    WaitingForPayment, WorkDone,
};
use typestate_rust::repair_order::{find_idle_technician, Answers, Customer, Employee};

fn order<State>(state: State) -> RepairOrder<State> {
    RepairOrder {
        order_number: 17,
        damage_description: None,
        vehicle: String::from("red car"),
        customer: Customer { has_outstanding_debt: true, is_banned: false },
        state,
    }
}

fn steps() -> Vec<String> {
    vec![String::from("lift"), String::from("weld"), String::from("paint")]
}

fn answers(is_valid: bool) -> Answers {
    Answers {
        is_valid,
        validation_errors: vec![String::from("no owner"), String::from("no plate")],
        steps: steps(),
        invoice: String::from("invoice 17: 300"),
    }
}

#[test]
fn with_state_keeps_the_order() {
    let next = order(New).with_state(WaitingForPayment { invoice: String::from("a") });
    assert_eq!(next, order(WaitingForPayment { invoice: String::from("a") }));
    assert_eq!(next.order_number, 17);
    assert_eq!(next.vehicle, "red car");
}

#[test]
fn the_idle_technician_is_an_employee() {
    assert_eq!(find_idle_technician(), Employee);
}

#[test]
fn validate_follows_the_check() {
    assert_eq!(order(New).validate(true, vec![String::from("unused")]), Ok(order(Valid)));
    assert_eq!(
        order(New).validate(false, vec![String::from("no owner")]),
        Err(order(Invalid { validation_errors: vec![String::from("no owner")] }))
    );
}

#[test]
fn start_progress_takes_technician_and_steps() {
    assert_eq!(
        order(Valid).start_progress(Employee, steps()),
        order(InProgress { assigned_technician: Employee, steps_left: steps() })
    );
}

#[test]
fn work_on_next_step_takes_the_first_step() {
    let mut in_progress = order(InProgress { assigned_technician: Employee, steps_left: steps() });
    assert!(in_progress.has_steps_left());
    in_progress.work_on_next_step();
    assert_eq!(
        in_progress,
        order(InProgress {
            assigned_technician: Employee,
            steps_left: vec![String::from("weld"), String::from("paint")],
        })
    );
    in_progress.work_on_next_step();
    in_progress.work_on_next_step();
    assert!(!in_progress.has_steps_left());
}

#[test]
fn work_ends_with_the_work_done() {
    let in_progress = order(InProgress { assigned_technician: Employee, steps_left: steps() });
    assert_eq!(in_progress.work(), order(WorkDone));
    let nothing_to_do = order(InProgress { assigned_technician: Employee, steps_left: vec![] });
    assert_eq!(nothing_to_do.work(), order(WorkDone));
}

#[test]
fn invoice_travels_to_the_paid_order() {
    let waiting = order(WorkDone).send_invoice(String::from("invoice 17: 300"));
    assert_eq!(waiting, order(WaitingForPayment { invoice: String::from("invoice 17: 300") }));
    assert_eq!(waiting.await_payment(), order(Paid { invoice: String::from("invoice 17: 300") }));
}

#[test]
fn valid_order_is_paid() {
    assert_eq!(
        process(order(New), answers(true)),
        Ok(order(Paid { invoice: String::from("invoice 17: 300") }))
    );
}

#[test]
fn invalid_order_keeps_its_errors() {
    assert_eq!(
        process(order(New), answers(false)),
        Err(order(Invalid {
            validation_errors: vec![String::from("no owner"), String::from("no plate")],
        }))
    );
}

#[test]
fn both_drivers_end_alike() {
    for is_valid in [true, false] {
        assert_eq!(
            process(order(New), answers(is_valid)),
            process_fluent(order(New), answers(is_valid))
        );
    }
    assert_eq!(
        process_fluent(order(New), answers(true)),
        Ok(order(Paid { invoice: String::from("invoice 17: 300") }))
    );
    assert!(process_fluent(order(New), answers(false)).is_err());
}
