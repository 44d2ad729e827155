//! The state of the order is spread over loose fields of one record, and
//! nothing but care keeps them in step with each other.

use vstd::prelude::*;
use super::{find_idle_technician, Answers, Customer, Employee};

verus! {

/// An order, with one field for each thing that a step may set.
#[derive(Debug, Clone, PartialEq, Eq)]
pub struct RepairOrder {
    pub order_number: u64,
    pub damage_description: Option<String>,
    pub vehicle: String,
    pub customer: Customer,
    pub valid: Option<bool>,
    pub validation_errors: Vec<String>,
    pub assigned_technician: Option<Employee>,
    pub in_progress: bool,
    pub steps_left: Vec<String>,
    pub paid: bool,
    pub invoice: Option<String>,
}

/// Takes an order through the workflow. An invalid order is marked so, takes
/// the validation errors and is left at that. A valid one is marked valid,
/// gets a technician, is worked on until no step is left, invoiced and paid.
pub fn process(order: RepairOrder, answers: Answers) -> (end: RepairOrder)
    ensures
        end.order_number == order.order_number,
        end.damage_description == order.damage_description,
        end.vehicle == order.vehicle,
        end.customer == order.customer,
        end.valid == Some(answers.is_valid),
        !answers.is_valid ==> ({
            &&& end.validation_errors == answers.validation_errors
            &&& end.assigned_technician == order.assigned_technician
            &&& end.in_progress == order.in_progress
            &&& end.steps_left == order.steps_left
            &&& end.paid == order.paid
            &&& end.invoice == order.invoice
        }),
        answers.is_valid ==> ({
            &&& end.validation_errors == order.validation_errors
            &&& end.assigned_technician == Some(Employee)
            &&& end.in_progress
            &&& end.steps_left@ == Seq::<String>::empty()
            &&& end.paid
            &&& end.invoice == Some(answers.invoice)
        }),
{
    let mut current = order;
    if answers.is_valid {
        current.valid = Some(true);
    } else {
        current.valid = Some(false);
        current.validation_errors = answers.validation_errors;
        return current;
    }

    let free_technician = find_idle_technician();
    current.assigned_technician = Some(free_technician);

    current.in_progress = true;

    current.steps_left = answers.steps;
    while !current.steps_left.is_empty()
        invariant
            current.order_number == order.order_number,
            current.damage_description == order.damage_description,
            current.vehicle == order.vehicle,
            current.customer == order.customer,
            current.valid == Some(true),
            current.validation_errors == order.validation_errors,
            current.assigned_technician == Some(Employee),
            current.in_progress,
        decreases current.steps_left.len(),
    {
        current.work_on_next_step();
    }

    current.invoice = Some(answers.invoice);
    current.paid = true;
    current
}

impl RepairOrder {
    /// A fresh order: not yet validated, nobody assigned, nothing to do and
    /// nothing paid.
    pub fn new(
        order_number: u64,
        damage_description: Option<String>,
        vehicle: String,
        customer: Customer,
    ) -> (order: Self)
        ensures
            order.order_number == order_number,
            order.damage_description == damage_description,
            order.vehicle == vehicle,
            order.customer == customer,
            order.valid is None,
            order.validation_errors@ == Seq::<String>::empty(),
            order.assigned_technician is None,
            !order.in_progress,
            order.steps_left@ == Seq::<String>::empty(),
            !order.paid,
            order.invoice is None,
    {
        Self {
            order_number,
            damage_description,
            vehicle,
            customer,
            valid: None,
            validation_errors: Vec::new(),
            assigned_technician: None,
            in_progress: false,
            steps_left: Vec::new(),
            paid: false,
            invoice: None,
        }
    }

    /// Takes the first of the steps that are left off the list.
    pub fn work_on_next_step(&mut self)
        requires
            old(self).steps_left.len() > 0,
        ensures
            final(self).steps_left@ == old(self).steps_left@.drop_first(),
            final(self).order_number == old(self).order_number,
            final(self).damage_description == old(self).damage_description,
            final(self).vehicle == old(self).vehicle,
            final(self).customer == old(self).customer,
            final(self).valid == old(self).valid,
            final(self).validation_errors == old(self).validation_errors,
            final(self).assigned_technician == old(self).assigned_technician,
            final(self).in_progress == old(self).in_progress,
            final(self).paid == old(self).paid,
            final(self).invoice == old(self).invoice,
    {
        let _ = self.steps_left.remove(0);
    }
}

} // verus!
