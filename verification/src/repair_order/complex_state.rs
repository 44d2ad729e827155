//! A workflow whose steps branch more than two ways, and where a failed order
//! can come back in: validation sorts a new order into one of four states, an
//! invalid order may recover, and a low priority order that finds no worker
//! is escalated.
//!
//! The rules by which the steps decide are fixed here, on the order number
//! alone, so that every run can be told in advance.

use vstd::prelude::*;
use super::typestate::RepairOrder;

verus! {

/// Exactly one of four alternatives.
#[derive(Debug, Clone, PartialEq, Eq)]
pub enum OneOf4<A, B, C, D> {
    A(A),
    B(B),
    C(C),
    D(D),
}

/// The four states in which an order's life ends.
pub type EndStates = OneOf4<
    RepairOrder<Finished>,
    RepairOrder<AprilFools>,
    RepairOrder<Garbage>,
    RepairOrder<Krangled>,
>;

/// The order in state `T1` if the step went well, in state `T2` if it did not.
pub type RepairOrderResult<T1, T2> = Result<RepairOrder<T1>, RepairOrder<T2>>;

/// The state in which every order starts.
#[derive(Debug, Clone, PartialEq, Eq)]
pub struct New;

/// Validation failed.
#[derive(Debug, Clone, PartialEq, Eq)]
pub struct Invalid {
    pub validation_errors: Vec<String>,
}

/// Validation failed at first and was made good.
#[derive(Debug, Clone, PartialEq, Eq)]
pub struct Recovered;

/// Terminal: the order was a joke.
#[derive(Debug, Clone, PartialEq, Eq)]
pub struct AprilFools;

/// To be worked on when a worker is free.
#[derive(Debug, Clone, PartialEq, Eq)]
pub struct LowPriority;

/// To be worked on next.
#[derive(Debug, Clone, PartialEq, Eq)]
pub struct HighPriority;

/// Queued for a technician.
#[derive(Debug, Clone, PartialEq, Eq)]
pub struct WaitingForWorker;

/// Terminal: the order was thrown away.
#[derive(Debug, Clone, PartialEq, Eq)]
pub struct Garbage;

/// Queued for its paperwork.
#[derive(Debug, Clone, PartialEq, Eq)]
pub struct WaitingForPrinter;

/// Reserved: no step leads here.
#[derive(Debug, Clone, PartialEq, Eq)]
pub struct WaitingForFridayAfternoon;

/// Reserved: no step leads here.
#[derive(Debug, Clone, PartialEq, Eq)]
pub struct WorkInProgress;

/// Terminal: validation failed beyond recovery.
#[derive(Debug, Clone, PartialEq, Eq)]
pub struct Krangled;

/// Terminal: the work is done.
#[derive(Debug, Clone, PartialEq, Eq)]
pub struct Finished;

/// Whether two orders, in whatever states, are the same order: number,
/// description, vehicle and customer agree.
pub open spec fn same_order<S1, S2>(a: RepairOrder<S1>, b: RepairOrder<S2>) -> bool {
    &&& a.order_number == b.order_number
    &&& a.damage_description == b.damage_description
    &&& a.vehicle == b.vehicle
    &&& a.customer == b.customer
}

/// The paperwork of an order can be printed if its number is even.
pub open spec fn print_ready(order_number: u64) -> bool {
    order_number % 2 == 0
}

/// An invalid order can be recovered if its number is below 1000.
pub open spec fn recoverable(order_number: u64) -> bool {
    order_number < 1000
}

/// A low priority order finds a worker if its number is a multiple of 3.
pub open spec fn finds_worker(order_number: u64) -> bool {
    order_number % 3 == 0
}

/// Where an order ends once it waits for a worker: Finished if its paperwork
/// can be printed, else Garbage.
pub open spec fn end_of_queued<S>(order: RepairOrder<S>) -> EndStates {
    if print_ready(order.order_number) {
        OneOf4::A(order.in_state(Finished))
    } else {
        OneOf4::C(order.in_state(Garbage))
    }
}

/// Where an invalid order ends: Krangled if it cannot be recovered, else
/// where a queued order ends.
pub open spec fn end_of_invalid<S>(order: RepairOrder<S>) -> EndStates {
    if recoverable(order.order_number) {
        end_of_queued(order)
    } else {
        OneOf4::D(order.in_state(Krangled))
    }
}

/// Where a new order ends.
pub open spec fn end_of_new<S>(order: RepairOrder<S>) -> EndStates {
    if order.order_number % 4 == 0 {
        end_of_invalid(order)
    } else if order.order_number % 4 == 3 {
        OneOf4::B(order.in_state(AprilFools))
    } else {
        end_of_queued(order)
    }
}

/// Takes a new order to the state in which its life ends.
pub fn process(order: RepairOrder<New>) -> (end: EndStates)
    ensures
        end == end_of_new(order),
{
    match order.validate() {
        OneOf4::A(invalid) => process_invalid(invalid),
        OneOf4::B(low_prio) => handle_low_prio(low_prio),
        OneOf4::C(high_prio) => handle_high_prio(high_prio),
        OneOf4::D(april_fools) => OneOf4::B(april_fools),
    }
}

/// Takes a low priority order to its end. One that finds no worker is
/// escalated and queued as a high priority order.
pub fn handle_low_prio(low_prio: RepairOrder<LowPriority>) -> (end: EndStates)
    ensures
        end == end_of_queued(low_prio),
{
    match low_prio.enqueue() {
        Ok(waiting_for_worker) => handle_waiting_for_worker(waiting_for_worker),
        Err(high_prio) => handle_high_prio(high_prio),
    }
}

/// Takes a high priority order to its end.
pub fn handle_high_prio(high_prio: RepairOrder<HighPriority>) -> (end: EndStates)
    ensures
        end == end_of_queued(high_prio),
{
    handle_waiting_for_worker(high_prio.enqueue())
}

/// Takes a queued order to its end.
pub fn handle_waiting_for_worker(waiting_for_worker: RepairOrder<WaitingForWorker>) -> (end:
    EndStates)
    ensures
        end == end_of_queued(waiting_for_worker),
{
    match waiting_for_worker.send_print_job() {
        Ok(waiting_for_printer) => OneOf4::A(waiting_for_printer.finish()),
        Err(garbage) => OneOf4::C(garbage),
    }
}

/// Takes an invalid order to its end.
pub fn process_invalid(invalid: RepairOrder<Invalid>) -> (end: EndStates)
    ensures
        end == end_of_invalid(invalid),
{
    match invalid.recover() {
        Ok(recovered) => handle_low_prio(recovered.prioritize()),
        Err(krangled) => OneOf4::D(krangled),
    }
}

impl<T> RepairOrder<T> {
    /// Whether the order's paperwork can be printed.
    pub fn check(&self) -> (ready: bool)
        ensures
            ready == print_ready(self.order_number),
    {
        self.order_number % 2 == 0
    }
}

impl RepairOrder<New> {
    /// Sorts a new order by its number modulo 4: 0 Invalid, 1 LowPriority,
    /// 2 HighPriority, 3 AprilFools. An Invalid order gets no error texts.
    pub fn validate(self) -> (sorted: OneOf4<
        RepairOrder<Invalid>,
        RepairOrder<LowPriority>,
        RepairOrder<HighPriority>,
        RepairOrder<AprilFools>,
    >)
        ensures
            (match sorted {
                OneOf4::A(invalid) => {
                    &&& self.order_number % 4 == 0
                    &&& same_order(invalid, self)
                    &&& invalid.state.validation_errors@ == Seq::<String>::empty()
                },
                OneOf4::B(low_prio) => {
                    &&& self.order_number % 4 == 1
                    &&& low_prio == self.in_state(LowPriority)
                },
                OneOf4::C(high_prio) => {
                    &&& self.order_number % 4 == 2
                    &&& high_prio == self.in_state(HighPriority)
                },
                OneOf4::D(april_fools) => {
                    &&& self.order_number % 4 == 3
                    &&& april_fools == self.in_state(AprilFools)
                },
            }),
    {
        let label: u64 = self.order_number % 4;
        if label == 0 {
            OneOf4::A(self.with_state(Invalid { validation_errors: Vec::new() }))
        } else if label == 1 {
            OneOf4::B(self.with_state(LowPriority))
        } else if label == 2 {
            OneOf4::C(self.with_state(HighPriority))
        } else {
            OneOf4::D(self.with_state(AprilFools))
        }
    }
}

impl RepairOrder<Recovered> {
    /// A recovered order is worked on at low priority.
    pub fn prioritize(self) -> (low_prio: RepairOrder<LowPriority>)
        ensures
            low_prio == self.in_state(LowPriority),
    {
        self.with_state(LowPriority)
    }
}

impl RepairOrder<LowPriority> {
    /// Queues the order if it finds a worker, else escalates it.
    pub fn enqueue(self) -> (queued: RepairOrderResult<WaitingForWorker, HighPriority>)
        ensures
            queued == (if finds_worker(self.order_number) {
                Ok::<RepairOrder<WaitingForWorker>, RepairOrder<HighPriority>>(
                    self.in_state(WaitingForWorker),
                )
            } else {
                Err(self.in_state(HighPriority))
            }),
    {
        if self.order_number % 3 == 0 {
            Ok(self.with_state(WaitingForWorker))
        } else {
            Err(self.with_state(HighPriority))
        }
    }
}

impl RepairOrder<HighPriority> {
    /// A high priority order always finds a worker.
    pub fn enqueue(self) -> (queued: RepairOrder<WaitingForWorker>)
        ensures
            queued == self.in_state(WaitingForWorker),
    {
        self.with_state(WaitingForWorker)
    }
}

impl RepairOrder<Invalid> {
    /// Recovers the order if its number is below 1000. If not, it is Krangled.
    pub fn recover(self) -> (recovered: RepairOrderResult<Recovered, Krangled>)
        ensures
            recovered == (if recoverable(self.order_number) {
                Ok::<RepairOrder<Recovered>, RepairOrder<Krangled>>(self.in_state(Recovered))
            } else {
                Err(self.in_state(Krangled))
            }),
    {
        if self.order_number < 1000 {
            Ok(self.with_state(Recovered))
        } else {
            Err(self.with_state(Krangled))
        }
    }
}

impl RepairOrder<WaitingForWorker> {
    /// Sends the paperwork to the printer if it can be printed. If not, the
    /// order is thrown away.
    pub fn send_print_job(self) -> (sent: RepairOrderResult<WaitingForPrinter, Garbage>)
        ensures
            sent == (if print_ready(self.order_number) {
                Ok::<RepairOrder<WaitingForPrinter>, RepairOrder<Garbage>>(
                    self.in_state(WaitingForPrinter),
                )
            } else {
                Err(self.in_state(Garbage))
            }),
    {
        if self.check() {
            Ok(self.with_state(WaitingForPrinter))
        } else {
            Err(self.with_state(Garbage))
        }
    }
}

impl RepairOrder<WaitingForPrinter> {
    /// The paperwork is printed: the order is Finished.
    pub fn finish(self) -> (finished: RepairOrder<Finished>)
        ensures
            finished == self.in_state(Finished),
    {
        self.with_state(Finished)
    }
}

} // verus!
