use typestate_rust::repair_order::complex_state::{
    AprilFools, Finished, Garbage, HighPriority, Invalid, Krangled, LowPriority, New, OneOf4,
    Recovered, WaitingForFridayAfternoon, WaitingForPrinter, WaitingForWorker, WorkInProgress,
};
use typestate_rust::repair_order::typestate::RepairOrder;
use typestate_rust::repair_order::typestate_serialization_every_step::{
    decode, encode, explicit, process, resume, ContractViolation, FormatError, Label,
    ProcessError, Record, States,
};
use typestate_rust::repair_order::Customer;

fn order<State>(order_number: u64, state: State) -> RepairOrder<State> {
    RepairOrder {
        order_number,
        damage_description: Some(String::from("flat tyre")),
        vehicle: String::from("green truck"),
        customer: Customer { has_outstanding_debt: true, is_banned: false },
        state,
    }
}

fn record(state: &str, order_number: u64, validation_errors: Option<Vec<String>>) -> Record {
    Record {
        state: String::from(state),
        order_number,
        damage_description: Some(String::from("flat tyre")),
        vehicle: String::from("green truck"),
        customer: Customer { has_outstanding_debt: true, is_banned: false },
        validation_errors,
    }
}

fn errors() -> Vec<String> {
    vec![String::from("no owner"), String::from("no plate")]
}

fn every_state() -> Vec<States> {
    vec![
        States::New(New),
        States::Invalid(Invalid { validation_errors: errors() }),
        States::Invalid(Invalid { validation_errors: vec![] }),
        States::Recovered(Recovered),
        States::AprilFools(AprilFools),
        States::LowPriority(LowPriority),
        States::HighPriority(HighPriority),
        States::WaitingForWorker(WaitingForWorker),
        States::Garbage(Garbage),
        States::WaitingForPrinter(WaitingForPrinter),
        States::WaitingForFridayAfternoon(WaitingForFridayAfternoon),
        States::WorkInProgress(WorkInProgress),
        States::Krangled(Krangled),
        States::Finished(Finished),
    ]
}

fn every_label() -> Vec<(Label, &'static str)> {
    vec![
        (Label::New, "New"),
        (Label::Invalid, "Invalid"),
        (Label::Recovered, "Recovered"),
        (Label::AprilFools, "AprilFools"),
        (Label::LowPriority, "LowPriority"),
        (Label::HighPriority, "HighPriority"),
        (Label::WaitingForWorker, "WaitingForWorker"),
        (Label::Garbage, "Garbage"),
        (Label::WaitingForPrinter, "WaitingForPrinter"),
        (Label::WaitingForFridayAfternoon, "WaitingForFridayAfternoon"),
        (Label::WorkInProgress, "WorkInProgress"),
        (Label::Krangled, "Krangled"),
        (Label::Finished, "Finished"),
    ]
}

#[test]
fn labels_have_their_names() {
    for (label, name) in every_label() {
        assert_eq!(label.as_str(), name);
        assert_eq!(Label::parse(name), Some(label));
    }
}

#[test]
fn other_texts_are_no_labels() {
    for text in ["", "new", "NEW", "New ", " New", "Valid", "Paid", "Invalid2", "Finishe"] {
        assert_eq!(Label::parse(text), None);
    }
}

#[test]
fn four_labels_are_terminal() {
    for (label, _) in every_label() {
        let expected = matches!(
            label,
            Label::Finished | Label::AprilFools | Label::Garbage | Label::Krangled
        );
        assert_eq!(label.terminal(), expected);
    }
}

#[test]
fn states_know_their_labels() {
    let labels: Vec<Label> = every_state().iter().map(|state| state.label()).collect();
    assert_eq!(labels[0], Label::New);
    assert_eq!(labels[1], Label::Invalid);
    assert_eq!(labels[2], Label::Invalid);
    assert_eq!(labels[3], Label::Recovered);
    assert_eq!(labels[13], Label::Finished);
}

#[test]
fn states_convert_into_the_union() {
    assert_eq!(States::from(New), States::New(New));
    assert_eq!(States::from(Krangled), States::Krangled(Krangled));
    assert_eq!(
        States::from(Invalid { validation_errors: errors() }),
        States::Invalid(Invalid { validation_errors: errors() })
    );
    assert_eq!(explicit(order(5, Recovered)), order(5, States::Recovered(Recovered)));
    assert_eq!(
        explicit(order(5, WaitingForFridayAfternoon)),
        order(5, States::WaitingForFridayAfternoon(WaitingForFridayAfternoon))
    );
}

#[test]
fn encode_writes_label_and_fields() {
    assert_eq!(encode(order(9, States::Garbage(Garbage))), record("Garbage", 9, None));
    assert_eq!(
        encode(order(8, States::Invalid(Invalid { validation_errors: errors() }))),
        record("Invalid", 8, Some(errors()))
    );
}

#[test]
fn decode_gives_back_what_encode_took() {
    for state in every_state() {
        for number in [0u64, 7, 1000, u64::MAX] {
            let before = order(number, state.clone());
            assert_eq!(decode(encode(before.clone())), Ok(before));
        }
    }
    let plain = RepairOrder {
        order_number: 1,
        damage_description: None,
        vehicle: String::new(),
        customer: Customer { has_outstanding_debt: false, is_banned: false },
        state: States::New(New),
    };
    assert_eq!(decode(encode(plain.clone())), Ok(plain));
}

#[test]
fn unknown_label_is_refused() {
    assert_eq!(decode(record("Paid", 1, None)), Err(FormatError::UnknownLabel));
    assert_eq!(decode(record("", 1, None)), Err(FormatError::UnknownLabel));
    assert_eq!(decode(record("invalid", 1, Some(errors()))), Err(FormatError::UnknownLabel));
}

#[test]
fn invalid_without_errors_field_is_refused() {
    assert_eq!(decode(record("Invalid", 1, None)), Err(FormatError::MissingPayload));
}

#[test]
fn errors_field_on_another_state_is_refused() {
    for (label, name) in every_label() {
        if label != Label::Invalid {
            assert_eq!(
                decode(record(name, 1, Some(errors()))),
                Err(FormatError::UnexpectedPayload)
            );
            assert_eq!(decode(record(name, 1, Some(vec![]))), Err(FormatError::UnexpectedPayload));
        }
    }
}

#[test]
fn advance_follows_the_typed_steps() {
    assert_eq!(
        order(4, States::New(New)).advance(),
        Ok(order(4, States::Invalid(Invalid { validation_errors: vec![] })))
    );
    assert_eq!(order(5, States::New(New)).advance(), Ok(order(5, States::LowPriority(LowPriority))));
    assert_eq!(
        order(6, States::New(New)).advance(),
        Ok(order(6, States::HighPriority(HighPriority)))
    );
    assert_eq!(order(7, States::New(New)).advance(), Ok(order(7, States::AprilFools(AprilFools))));
    assert_eq!(
        order(999, States::Invalid(Invalid { validation_errors: errors() })).advance(),
        Ok(order(999, States::Recovered(Recovered)))
    );
    assert_eq!(
        order(1000, States::Invalid(Invalid { validation_errors: errors() })).advance(),
        Ok(order(1000, States::Krangled(Krangled)))
    );
    assert_eq!(
        order(1, States::Recovered(Recovered)).advance(),
        Ok(order(1, States::LowPriority(LowPriority)))
    );
    assert_eq!(
        order(3, States::LowPriority(LowPriority)).advance(),
        Ok(order(3, States::WaitingForWorker(WaitingForWorker)))
    );
    assert_eq!(
        order(4, States::LowPriority(LowPriority)).advance(),
        Ok(order(4, States::HighPriority(HighPriority)))
    );
    assert_eq!(
        order(4, States::HighPriority(HighPriority)).advance(),
        Ok(order(4, States::WaitingForWorker(WaitingForWorker)))
    );
    assert_eq!(
        order(4, States::WaitingForWorker(WaitingForWorker)).advance(),
        Ok(order(4, States::WaitingForPrinter(WaitingForPrinter)))
    );
    assert_eq!(
        order(5, States::WaitingForWorker(WaitingForWorker)).advance(),
        Ok(order(5, States::Garbage(Garbage)))
    );
    assert_eq!(
        order(5, States::WaitingForPrinter(WaitingForPrinter)).advance(),
        Ok(order(5, States::Finished(Finished)))
    );
}

#[test]
fn terminal_states_have_no_step() {
    for state in [
        States::Finished(Finished),
        States::AprilFools(AprilFools),
        States::Garbage(Garbage),
        States::Krangled(Krangled),
    ] {
        for number in [0u64, 1, 2, 3, 1000] {
            assert_eq!(order(number, state.clone()).advance(), Err(ContractViolation));
            assert_eq!(resume(order(number, state.clone())), Err(ContractViolation));
            assert_eq!(
                process(encode(order(number, state.clone()))),
                Err(ProcessError::Contract(ContractViolation))
            );
        }
    }
}

#[test]
fn reserved_states_have_no_step() {
    for state in [
        States::WaitingForFridayAfternoon(WaitingForFridayAfternoon),
        States::WorkInProgress(WorkInProgress),
    ] {
        assert_eq!(order(2, state.clone()).advance(), Err(ContractViolation));
        assert_eq!(resume(order(2, state)), Err(ContractViolation));
    }
}

#[test]
fn resume_goes_on_to_the_end() {
    assert_eq!(resume(order(4, States::New(New))), Ok(OneOf4::A(order(4, Finished))));
    assert_eq!(resume(order(3, States::New(New))), Ok(OneOf4::B(order(3, AprilFools))));
    assert_eq!(
        resume(order(1003, States::Invalid(Invalid { validation_errors: errors() }))),
        Ok(OneOf4::D(order(1003, Krangled)))
    );
    assert_eq!(resume(order(5, States::Recovered(Recovered))), Ok(OneOf4::C(order(5, Garbage))));
    assert_eq!(
        resume(order(6, States::LowPriority(LowPriority))),
        Ok(OneOf4::A(order(6, Finished)))
    );
    assert_eq!(
        resume(order(7, States::HighPriority(HighPriority))),
        Ok(OneOf4::C(order(7, Garbage)))
    );
    assert_eq!(
        resume(order(8, States::WaitingForWorker(WaitingForWorker))),
        Ok(OneOf4::A(order(8, Finished)))
    );
    assert_eq!(
        resume(order(9, States::WaitingForPrinter(WaitingForPrinter))),
        Ok(OneOf4::A(order(9, Finished)))
    );
}

#[test]
fn resuming_after_any_step_ends_like_the_whole_run() {
    for number in [0u64, 1, 2, 3, 4, 5, 6, 9, 12, 996, 1000, 1001, 1002, 1003, 1004] {
        let end = resume(order(number, States::New(New))).unwrap();
        let mut current = order(number, States::New(New));
        loop {
            let checkpoint = encode(current);
            let restored = decode(checkpoint).unwrap();
            if restored.state.label().terminal() {
                let reached = match end {
                    OneOf4::A(finished) => explicit(finished),
                    OneOf4::B(april_fools) => explicit(april_fools),
                    OneOf4::C(garbage) => explicit(garbage),
                    OneOf4::D(krangled) => explicit(krangled),
                };
                assert_eq!(restored, reached);
                break;
            }
            assert_eq!(resume(restored.clone()), Ok(end.clone()));
            current = restored.advance().unwrap();
        }
    }
}

#[test]
fn process_writes_one_checkpoint_after_another() {
    let mut checkpoint = record("New", 4, None);
    let mut names = Vec::new();
    loop {
        checkpoint = process(checkpoint).unwrap();
        names.push(checkpoint.state.clone());
        assert_eq!(checkpoint.order_number, 4);
        assert_eq!(checkpoint.vehicle, "green truck");
        if Label::parse(&checkpoint.state).unwrap().terminal() {
            break;
        }
    }
    assert_eq!(
        names,
        [
            "Invalid",
            "Recovered",
            "LowPriority",
            "HighPriority",
            "WaitingForWorker",
            "WaitingForPrinter",
            "Finished"
        ]
    );
    assert_eq!(checkpoint, record("Finished", 4, None));
}

#[test]
fn process_drops_the_errors_on_recovery() {
    assert_eq!(process(record("Invalid", 8, Some(errors()))), Ok(record("Recovered", 8, None)));
    assert_eq!(process(record("New", 8, None)), Ok(record("Invalid", 8, Some(vec![]))));
}

#[test]
fn process_refuses_what_decode_refuses() {
    assert_eq!(
        process(record("Repaired", 4, None)),
        Err(ProcessError::Format(FormatError::UnknownLabel))
    );
    assert_eq!(
        process(record("Invalid", 4, None)),
        Err(ProcessError::Format(FormatError::MissingPayload))
    );
    assert_eq!(
        process(record("New", 4, Some(errors()))),
        Err(ProcessError::Format(FormatError::UnexpectedPayload))
    );
}
