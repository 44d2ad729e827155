//! Checkpoints at the two ends only: an order comes in as a record in state
//! New and leaves as the record of the state in which its life ended. Nothing
//! is written in between, so a run that is interrupted starts over.

use vstd::prelude::*;
use super::complex_state::{end_of_new, EndStates, OneOf4};
use super::typestate::RepairOrder;
use super::typestate_serialization_every_step::{
    decode, decoded, encode, explicit, stores, ContractViolation, ProcessError, Record, States,
};

verus! {

/// An end state with its state spelled out.
pub open spec fn spelled_out(end: EndStates) -> RepairOrder<States> {
    match end {
        OneOf4::A(finished) => finished.in_state(States::Finished(finished.state)),
        OneOf4::B(april_fools) => april_fools.in_state(States::AprilFools(april_fools.state)),
        OneOf4::C(garbage) => garbage.in_state(States::Garbage(garbage.state)),
        OneOf4::D(krangled) => krangled.in_state(States::Krangled(krangled.state)),
    }
}

/// Takes the new order of a record to the end of its life and writes the
/// record of its end state. A record that cannot be read is refused as it is
/// by `decode`, and one of an order in another state than New as a contract
/// violation.
pub fn process(request: Record) -> (response: Result<Record, ProcessError>)
    ensures
        (match decoded(request) {
            Err(error) => response == Err::<Record, ProcessError>(ProcessError::Format(error)),
            Ok(order) => match order.state {
                States::New(new) => {
                    &&& response matches Ok(record)
                    &&& stores(record, spelled_out(end_of_new(order)))
                },
                _ => response == Err::<Record, ProcessError>(
                    ProcessError::Contract(ContractViolation),
                ),
            },
        }),
{
    let order = match decode(request) {
        Ok(order) => order,
        Err(error) => {
            return Err(ProcessError::Format(error));
        },
    };
    let RepairOrder { order_number, damage_description, vehicle, customer, state } = order;
    let new = match state {
        States::New(new) => new,
        _ => {
            return Err(ProcessError::Contract(ContractViolation));
        },
    };
    let order = RepairOrder { order_number, damage_description, vehicle, customer, state: new };
    Ok(
        encode(
            match super::complex_state::process(order) {
                OneOf4::A(finished) => explicit(finished),
                OneOf4::B(april_fools) => explicit(april_fools),
                OneOf4::C(garbage) => explicit(garbage),
                OneOf4::D(krangled) => explicit(krangled),
            },
        ),
    )
}

} // verus!
