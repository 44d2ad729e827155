//! Each state of the order is a type of its own, so a step that does not fit
//! the order's state does not compile.
//!
//! New -> Valid | Invalid, Valid -> InProgress -> WorkDone ->
//! WaitingForPayment -> Paid.

use vstd::prelude::*;
use super::{find_idle_technician, Answers, Customer, Employee};

verus! {

/// An order in state `State`. A transition consumes the order and returns it
/// in the next state; number, description, vehicle and customer never change.
#[derive(Debug, Clone, PartialEq, Eq)]
pub struct RepairOrder<State> {
    pub order_number: u64,
    pub damage_description: Option<String>,
    pub vehicle: String,
    pub customer: Customer,
    pub state: State,
}

/// The state in which every order starts.
#[derive(Debug, Clone, PartialEq, Eq)]
pub struct New;

/// Validation passed.
#[derive(Debug, Clone, PartialEq, Eq)]
pub struct Valid;

/// Validation failed, for the reasons given.
#[derive(Debug, Clone, PartialEq, Eq)]
pub struct Invalid {
    pub validation_errors: Vec<String>,
}

/// A technician works on the order.
#[derive(Debug, Clone, PartialEq, Eq)]
pub struct InProgress {
    pub assigned_technician: Employee,
    pub steps_left: Vec<String>,
}

/// No step is left to take.
#[derive(Debug, Clone, PartialEq, Eq)]
pub struct WorkDone;

/// The invoice is out.
#[derive(Debug, Clone, PartialEq, Eq)]
pub struct WaitingForPayment {
    pub invoice: String,
}

/// The invoice is paid.
#[derive(Debug, Clone, PartialEq, Eq)]
pub struct Paid {
    pub invoice: String,
}

impl<State> RepairOrder<State> {
    /// The same order in state `state`.
    pub open spec fn in_state<NewState>(self, state: NewState) -> RepairOrder<NewState> {
        RepairOrder {
            order_number: self.order_number,
            damage_description: self.damage_description,
            vehicle: self.vehicle,
            customer: self.customer,
            state,
        }
    }

    /// Moves the order into another state. Nothing else of it changes.
    pub fn with_state<NewState>(self, new_state: NewState) -> (next: RepairOrder<NewState>)
        ensures
            next == self.in_state(new_state),
    {
        RepairOrder {
            order_number: self.order_number,
            damage_description: self.damage_description,
            vehicle: self.vehicle,
            customer: self.customer,
            state: new_state,
        }
    }
}

impl RepairOrder<New> {
    /// Valid if the validity check passed, else Invalid with the errors it gave.
    pub fn validate(self, is_valid: bool, validation_errors: Vec<String>) -> (checked: Result<
        RepairOrder<Valid>,
        RepairOrder<Invalid>,
    >)
        ensures
            checked == (if is_valid {
                Ok::<RepairOrder<Valid>, RepairOrder<Invalid>>(self.in_state(Valid))
            } else {
                Err(self.in_state(Invalid { validation_errors }))
            }),
    {
        if is_valid {
            Ok(self.with_state(Valid))
        } else {
            Err(self.with_state(Invalid { validation_errors }))
        }
    }
}

impl RepairOrder<Valid> {
    /// The order goes to the technician, with the steps to take.
    pub fn start_progress(self, technician: Employee, steps_left: Vec<String>) -> (started:
        RepairOrder<InProgress>)
        ensures
            started == self.in_state(InProgress { assigned_technician: technician, steps_left }),
    {
        self.with_state(InProgress { steps_left, assigned_technician: technician })
    }
}

impl RepairOrder<InProgress> {
    /// Works through the steps that are left, first step first.
    pub fn work(self) -> (done: RepairOrder<WorkDone>)
        ensures
            done == self.in_state(WorkDone),
    {
        let mut order = self;
        while order.has_steps_left()
            invariant
                order.in_state(WorkDone) == self.in_state(WorkDone),
            decreases order.state.steps_left.len(),
        {
            order.work_on_next_step()
        }
        order.with_state(WorkDone)
    }

    /// Whether a step is left to take.
    pub fn has_steps_left(&self) -> (some_left: bool)
        ensures
            some_left == (self.state.steps_left.len() > 0),
    {
        !self.state.steps_left.is_empty()
    }

    /// Takes the first of the steps that are left off the list.
    pub fn work_on_next_step(&mut self)
        requires
            old(self).state.steps_left.len() > 0,
        ensures
            *final(self) == old(self).in_state(
                InProgress {
                    assigned_technician: old(self).state.assigned_technician,
                    steps_left: final(self).state.steps_left,
                },
            ),
            final(self).state.steps_left@ == old(self).state.steps_left@.drop_first(),
    {
        let _ = self.state.steps_left.remove(0);
    }
}

impl RepairOrder<WorkDone> {
    /// The order waits for payment of the invoice.
    pub fn send_invoice(self, invoice: String) -> (waiting: RepairOrder<WaitingForPayment>)
        ensures
            waiting == self.in_state(WaitingForPayment { invoice }),
    {
        self.with_state(WaitingForPayment { invoice })
    }
}

impl RepairOrder<WaitingForPayment> {
    /// The payment has arrived: the order is Paid, under the invoice it waited on.
    pub fn await_payment(self) -> (paid: RepairOrder<Paid>)
        ensures
            paid == self.in_state(Paid { invoice: self.state.invoice }),
    {
        let invoice = self.state.invoice.clone();
        self.with_state(Paid { invoice })
    }
}

/// Where an order ends under the given answers: Paid under the invoice if it
/// is valid, else Invalid with the validation errors.
pub open spec fn settled(order: RepairOrder<New>, answers: Answers) -> Result<
    RepairOrder<Paid>,
    RepairOrder<Invalid>,
> {
    if answers.is_valid {
        Ok(order.in_state(Paid { invoice: answers.invoice }))
    } else {
        Err(order.in_state(Invalid { validation_errors: answers.validation_errors }))
    }
}

/// Takes a new order through the workflow, one match per branching step.
pub fn process(order: RepairOrder<New>, answers: Answers) -> (end: Result<
    RepairOrder<Paid>,
    RepairOrder<Invalid>,
>)
    ensures
        end == settled(order, answers),
{
    let valid = match order.validate(answers.is_valid, answers.validation_errors) {
        Ok(valid) => valid,
        Err(invalid) => {
            return Err(invalid);
        },
    };

    let technician = find_idle_technician();
    let in_progress = valid.start_progress(technician, answers.steps);

    let done = in_progress.work();
    let waiting = done.send_invoice(answers.invoice);
    Ok(waiting.await_payment())
}

/// Takes a new order through the workflow in one chain of calls.
pub fn process_fluent(order: RepairOrder<New>, answers: Answers) -> (end: Result<
    RepairOrder<Paid>,
    RepairOrder<Invalid>,
>)
    ensures
        end == settled(order, answers),
{
    Ok(
        order.validate(answers.is_valid, answers.validation_errors)?.start_progress(
            find_idle_technician(),
            answers.steps,
        ).work().send_invoice(answers.invoice).await_payment(),
    )
}

/// The two drivers agree: whatever `process` and `process_fluent` return for
/// the same order and the same answers is the same end state.
pub proof fn drivers_agree(
    order: RepairOrder<New>,
    answers: Answers,
    by_match: Result<RepairOrder<Paid>, RepairOrder<Invalid>>,
    by_chain: Result<RepairOrder<Paid>, RepairOrder<Invalid>>,
)
    requires
        call_ensures(process, (order, answers), by_match),
        call_ensures(process_fluent, (order, answers), by_chain),
    ensures
        by_match == by_chain,
{
}

} // verus!
