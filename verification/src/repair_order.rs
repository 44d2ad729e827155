//! The repair order workflow, and the records every design of it shares.
//!
//! The shop's services (the validity check, the work breakdown, invoicing) are
//! not part of this crate. Their answers for one order arrive as [`Answers`].

use vstd::prelude::*;

pub mod complex_state;
pub mod kitchen_sink;
pub mod single_variables;
pub mod state_enum;
pub mod typestate;
pub mod typestate_serialization_every_step;
pub mod typestate_serialization_start_end;

verus! {

/// What the shop knows about the customer who placed an order.
#[derive(Debug, Clone, Copy, PartialEq, Eq, Structural)]
pub struct Customer {
    pub has_outstanding_debt: bool,
    pub is_banned: bool,
}

/// A technician of the shop.
#[derive(Debug, Clone, Copy, PartialEq, Eq, Structural)]
pub struct Employee;

/// What the shop's services answer when asked about one order.
#[derive(Debug, Clone, PartialEq, Eq)]
pub struct Answers {
    /// Whether the order passes validation.
    pub is_valid: bool,
    /// Why it does not. Read only when `is_valid` is false.
    pub validation_errors: Vec<String>,
    /// The work breakdown, first step first.
    pub steps: Vec<String>,
    /// The invoice for the finished work.
    pub invoice: String,
}

/// The technician who takes the next order.
pub fn find_idle_technician() -> (technician: Employee)
    ensures
        technician == Employee,
{
    Employee
}

} // verus!
