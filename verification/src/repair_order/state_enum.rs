//! The state of the order is one field, an enum. Which steps fit the state is
//! not seen by the compiler: each step says in its `requires` in which state
//! the order must be, and a caller that Verus has not seen may ask first with
//! `State::admits`. A step taken in a state that does not admit it stops the
//! program; it never changes the order.

use vstd::prelude::*;
use super::{find_idle_technician, Answers, Customer, Employee};

verus! {

/// An order and the state it is in.
#[derive(Debug, Clone, PartialEq, Eq)]
pub struct RepairOrder {
    pub order_number: u64,
    pub damage_description: Option<String>,
    pub vehicle: String,
    pub customer: Customer,
    pub state: State,
}

/// The states of an order, each with what it carries.
#[derive(Debug, Clone, PartialEq, Eq)]
pub enum State {
    New,
    Valid,
    Invalid { validation_errors: Vec<String> },
    InProgress { assigned_technician: Employee, steps_left: Vec<String> },
    WorkDone,
    WaitingForPayment { invoice: String },
    Paid { invoice: String },
}

/// The steps that take an order from state to state.
#[derive(Debug, Clone, Copy, PartialEq, Eq, Structural)]
pub enum Step {
    Validate,
    StartProgress,
    Work,
    SendInvoice,
    AwaitPayment,
}

impl State {
    /// Whether the step may be taken in this state. Each step has the one
    /// state that it starts from.
    pub open spec fn spec_admits(&self, step: Step) -> bool {
        match step {
            Step::Validate => self is New,
            Step::StartProgress => self is Valid,
            Step::Work => self is InProgress,
            Step::SendInvoice => self is WorkDone,
            Step::AwaitPayment => self is WaitingForPayment,
        }
    }

    /// Whether an order's life ends in this state: it is paid, or it failed
    /// validation.
    pub open spec fn is_terminal(&self) -> bool {
        self is Paid || self is Invalid
    }

    /// Whether the step may be taken in this state.
    #[verifier::when_used_as_spec(spec_admits)]
    pub fn admits(&self, step: Step) -> (fits: bool)
        ensures
            fits == self.spec_admits(step),
    {
        match (step, self) {
            (Step::Validate, State::New) => true,
            (Step::StartProgress, State::Valid) => true,
            (Step::Work, State::InProgress { .. }) => true,
            (Step::SendInvoice, State::WorkDone) => true,
            (Step::AwaitPayment, State::WaitingForPayment { .. }) => true,
            _ => false,
        }
    }
}

/// No step may be taken in a terminal state: every step's `requires` leaves
/// the terminal states out.
pub proof fn terminal_states_admit_no_step(state: State, step: Step)
    requires
        state.is_terminal(),
    ensures
        !state.admits(step),
{
}

/// Takes a new order through the workflow: to Paid under the invoice if it
/// is valid, else to Invalid with the validation errors.
pub fn process(order: RepairOrder, answers: Answers) -> (end: RepairOrder)
    requires
        order.state is New,
    ensures
        end == order.in_state(
            if answers.is_valid {
                State::Paid { invoice: answers.invoice }
            } else {
                State::Invalid { validation_errors: answers.validation_errors }
            },
        ),
{
    let mut order = order;
    order.validate(answers.is_valid, answers.validation_errors);

    if order.is_invalid() {
        return order;
    }
    let technician = find_idle_technician();
    order.start_progress(technician, answers.steps);

    order.work();
    order.send_invoice(answers.invoice);
    order.await_payment();
    order
}

impl RepairOrder {
    /// The same order in state `state`.
    pub open spec fn in_state(self, state: State) -> RepairOrder {
        RepairOrder {
            order_number: self.order_number,
            damage_description: self.damage_description,
            vehicle: self.vehicle,
            customer: self.customer,
            state,
        }
    }

    /// A new order becomes Valid if the validity check passed, else Invalid
    /// with the errors it gave.
    pub fn validate(&mut self, is_valid: bool, validation_errors: Vec<String>)
        requires
            old(self).state.admits(Step::Validate),
        ensures
            *final(self) == old(self).in_state(
                if is_valid {
                    State::Valid
                } else {
                    State::Invalid { validation_errors }
                },
            ),
    {
        match self.state {
            State::New => {},
            _ => unreached(),
        }
        self.state = if is_valid {
            State::Valid
        } else {
            State::Invalid { validation_errors }
        };
    }

    /// A valid order goes to the technician, with the steps to take.
    pub fn start_progress(&mut self, technician: Employee, steps_left: Vec<String>)
        requires
            old(self).state.admits(Step::StartProgress),
        ensures
            *final(self) == old(self).in_state(
                State::InProgress { assigned_technician: technician, steps_left },
            ),
    {
        match self.state {
            State::Valid => {},
            _ => unreached(),
        }
        self.state = State::InProgress { steps_left, assigned_technician: technician };
    }

    /// Works through the steps that are left, first step first.
    pub fn work(&mut self)
        requires
            old(self).state.admits(Step::Work),
        ensures
            *final(self) == old(self).in_state(State::WorkDone),
    {
        while self.has_steps_left()
            invariant
                self.state is InProgress,
                self.in_state(State::WorkDone) == old(self).in_state(State::WorkDone),
            decreases self.state->steps_left.len(),
        {
            self.work_on_next_step()
        }
        self.state = State::WorkDone;
    }

    /// Whether the order in progress has a step left to take.
    pub fn has_steps_left(&self) -> (some_left: bool)
        requires
            self.state is InProgress,
        ensures
            some_left == (self.state->steps_left.len() > 0),
    {
        match &self.state {
            State::InProgress { steps_left, .. } => !steps_left.is_empty(),
            _ => unreached(),
        }
    }

    /// The order whose work is done waits for payment of the invoice.
    pub fn send_invoice(&mut self, invoice: String)
        requires
            old(self).state.admits(Step::SendInvoice),
        ensures
            *final(self) == old(self).in_state(State::WaitingForPayment { invoice }),
    {
        match self.state {
            State::WorkDone => {},
            _ => unreached(),
        }
        self.state = State::WaitingForPayment { invoice };
    }

    /// The payment has arrived: the order is Paid, under the invoice it waited on.
    pub fn await_payment(&mut self)
        requires
            old(self).state.admits(Step::AwaitPayment),
        ensures
            *final(self) == old(self).in_state(
                State::Paid { invoice: old(self).state->WaitingForPayment_invoice },
            ),
    {
        let invoice = match &self.state {
            State::WaitingForPayment { invoice } => invoice.clone(),
            _ => unreached(),
        };
        self.state = State::Paid { invoice };
    }

    /// Takes the first of the steps that are left off the list.
    pub fn work_on_next_step(&mut self)
        requires
            old(self).state is InProgress,
            old(self).state->steps_left.len() > 0,
        ensures
            final(self).state is InProgress,
            final(self).in_state(State::WorkDone) == old(self).in_state(State::WorkDone),
            final(self).state->assigned_technician == old(self).state->assigned_technician,
            final(self).state->steps_left@ == old(self).state->steps_left@.drop_first(),
    {
        match &mut self.state {
            State::InProgress { steps_left, .. } => {
                let _ = steps_left.remove(0);
            },
            _ => unreached(),
        }
    }

    /// Whether the order failed validation.
    pub fn is_invalid(&self) -> (invalid: bool)
        ensures
            invalid == (self.state is Invalid),
    {
        match self.state {
            State::Invalid { .. } => true,
            _ => false,
        }
    }
}

} // verus!
