//! Everything in one record: every field that any step may need, set or not.
//! Here the shop's rules are part of the module: an order is valid unless its
//! customer owes money or is banned, and an order gets its number from a
//! source that counts up.

use vstd::prelude::*;
use super::{Customer, Employee};

verus! {

/// An order and everything that may ever be known of it.
#[derive(Debug, Clone, PartialEq, Eq)]
pub struct RepairOrder {
    pub order_number: u64,
    pub damage_description: Option<String>,
    pub is_inspection: bool,
    pub vehicle: String,
    pub customer: Customer,
    pub valid: Option<bool>,
    pub validation_errors: Vec<String>,
    pub assigned_technician: Option<Employee>,
    pub in_progress: bool,
    pub steps_left: Vec<String>,
    pub blocked: bool,
    pub waiting_for_items: Vec<String>,
    pub paid: bool,
    pub invoice: Option<String>,
}

/// Whether the order passes validation.
pub open spec fn is_valid(order: RepairOrder) -> bool {
    !order.customer.has_outstanding_debt && !order.customer.is_banned
}

/// The error texts of an order: one for the debt, if there is one, then one
/// for the ban, if there is one.
pub open spec fn errors_of(order: RepairOrder) -> Seq<Seq<char>> {
    (if order.customer.has_outstanding_debt {
        seq!["Customer has outstanding debt"@]
    } else {
        seq![]
    }) + (if order.customer.is_banned {
        seq!["Customer is banned from the shop"@]
    } else {
        seq![]
    })
}

/// The texts of a list of strings.
pub open spec fn texts(list: Vec<String>) -> Seq<Seq<char>> {
    list@.map_values(|text: String| text@)
}

/// Validates an order and, if it is valid, puts a technician on it. An
/// invalid order is marked so, takes its error texts and is left at that: to
/// store it is the caller's part.
pub fn process(order: RepairOrder) -> (end: RepairOrder)
    ensures
        end.order_number == order.order_number,
        end.damage_description == order.damage_description,
        end.is_inspection == order.is_inspection,
        end.vehicle == order.vehicle,
        end.customer == order.customer,
        end.steps_left == order.steps_left,
        end.blocked == order.blocked,
        end.waiting_for_items == order.waiting_for_items,
        end.paid == order.paid,
        end.invoice == order.invoice,
        end.valid == Some(is_valid(order)),
        !is_valid(order) ==> ({
            &&& texts(end.validation_errors) == errors_of(order)
            &&& end.assigned_technician == order.assigned_technician
            &&& end.in_progress == order.in_progress
        }),
        is_valid(order) ==> ({
            &&& end.validation_errors == order.validation_errors
            &&& end.assigned_technician == Some(Employee)
            &&& end.in_progress
        }),
{
    let mut current = order;
    if validate(&current) {
        current.valid = Some(true);
    } else {
        current.valid = Some(false);
        current.validation_errors = validation_errors(&current);
        return current;
    }

    while current.assigned_technician.is_none()
        invariant
            current.order_number == order.order_number,
            current.damage_description == order.damage_description,
            current.is_inspection == order.is_inspection,
            current.vehicle == order.vehicle,
            current.customer == order.customer,
            current.steps_left == order.steps_left,
            current.blocked == order.blocked,
            current.waiting_for_items == order.waiting_for_items,
            current.paid == order.paid,
            current.invoice == order.invoice,
            current.valid == Some(true),
            current.validation_errors == order.validation_errors,
            current.in_progress == order.in_progress,
            current.assigned_technician is None || current.assigned_technician == Some(Employee),
        decreases
            (if current.assigned_technician is None {
                1nat
            } else {
                0nat
            }),
    {
        // Somebody is always idle, so the first round finds a technician and
        // there is no waiting between rounds.
        if let Some(technician) = find_idle_technician() {
            current.assigned_technician = Some(technician);
        }
    }

    current.in_progress = true;
    current
}

/// The source of order numbers. It counts up and hands out each number
/// once, so no two orders made from one source share a number.
#[derive(Debug)]
pub struct OrderNumbers {
    next: u64,
}

/// Whether the source `before` hands out `order_number` and is `after` then:
/// the number is the next one, and the one after it is next from then on.
pub open spec fn hands_out(before: OrderNumbers, order_number: u64, after: OrderNumbers) -> bool {
    &&& order_number == before.next()
    &&& after.next() == before.next() + 1
}

impl OrderNumbers {
    /// The number that the next order gets.
    pub closed spec fn next(self) -> u64 {
        self.next
    }

    /// A source whose first number is `first`.
    pub fn starting_at(first: u64) -> (numbers: Self)
        ensures
            numbers.next() == first,
    {
        OrderNumbers { next: first }
    }

    /// Whether the source can hand out a number. It cannot once it has
    /// counted up to the largest number there is.
    pub fn has_next(&self) -> (left: bool)
        ensures
            left == (self.next() < u64::MAX),
    {
        self.next < u64::MAX
    }
}

impl RepairOrder {
    /// A fresh order under the next order number of `numbers`: not yet
    /// validated, nobody assigned, nothing to do, nothing missing and
    /// nothing paid.
    pub fn new(
        numbers: &mut OrderNumbers,
        customer: Customer,
        damage_description: Option<String>,
        is_inspection: bool,
        vehicle: String,
    ) -> (order: Self)
        requires
            old(numbers).next() < u64::MAX,
        ensures
            hands_out(*old(numbers), order.order_number, *final(numbers)),
            order.damage_description == damage_description,
            order.is_inspection == is_inspection,
            order.vehicle == vehicle,
            order.customer == customer,
            order.valid is None,
            order.validation_errors@ == Seq::<String>::empty(),
            order.assigned_technician is None,
            !order.in_progress,
            order.steps_left@ == Seq::<String>::empty(),
            !order.blocked,
            order.waiting_for_items@ == Seq::<String>::empty(),
            !order.paid,
            order.invoice is None,
    {
        let order_number = generate_order_number(numbers);
        RepairOrder {
            order_number,
            damage_description,
            is_inspection,
            vehicle,
            customer,
            valid: None,
            validation_errors: Vec::new(),
            assigned_technician: None,
            in_progress: false,
            steps_left: Vec::new(),
            blocked: false,
            waiting_for_items: Vec::new(),
            paid: false,
            invoice: None,
        }
    }
}

/// Hands out the next order number of `numbers`.
pub fn generate_order_number(numbers: &mut OrderNumbers) -> (order_number: u64)
    requires
        old(numbers).next() < u64::MAX,
    ensures
        hands_out(*old(numbers), order_number, *final(numbers)),
{
    let order_number = numbers.next;
    numbers.next = order_number + 1;
    order_number
}

/// Order numbers are unique: a number handed out is smaller than every number
/// that the source hands out later, whatever it handed out in between.
pub proof fn later_numbers_are_larger(
    before: OrderNumbers,
    earlier: u64,
    after: OrderNumbers,
    later_before: OrderNumbers,
    later: u64,
    later_after: OrderNumbers,
)
    requires
        hands_out(before, earlier, after),
        after.next() <= later_before.next(),
        hands_out(later_before, later, later_after),
    ensures
        earlier < later,
{
}

/// A technician who is idle. There always is one.
pub fn find_idle_technician() -> (technician: Option<Employee>)
    ensures
        technician == Some(Employee),
{
    Some(Employee)
}

/// Why the order fails validation: a text for the debt, then one for the ban.
pub fn validation_errors(order: &RepairOrder) -> (errors: Vec<String>)
    ensures
        texts(errors) == errors_of(*order),
{
    let mut errors: Vec<String> = Vec::new();
    if order.customer.has_outstanding_debt {
        errors.push("Customer has outstanding debt".to_owned());
    }
    if order.customer.is_banned {
        errors.push("Customer is banned from the shop".to_owned());
    }
    errors
}

/// Whether the order passes validation: its customer neither owes money nor
/// is banned.
pub fn validate(order: &RepairOrder) -> (valid: bool)
    ensures
        valid == is_valid(*order),
{
    !order.customer.has_outstanding_debt && !order.customer.is_banned
}

} // verus!
