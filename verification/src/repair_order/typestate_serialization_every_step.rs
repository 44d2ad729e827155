//! Checkpoints after every step: the order with its state spelled out, so
//! that a stored order says by itself in which state it is, and a workflow
//! that was interrupted can go on from the last checkpoint.
//!
//! A checkpoint is a [`Record`]. Turning records into text and storing them is
//! the caller's part.

use vstd::prelude::*;
use vstd::std_specs::convert::{FromSpecImpl, IntoSpec};
use super::complex_state::{
    end_of_invalid, end_of_new, end_of_queued, finds_worker, handle_high_prio, handle_low_prio,
    handle_waiting_for_worker, print_ready, process_invalid, recoverable, same_order, AprilFools,
    EndStates, Finished, Garbage, HighPriority, Invalid, Krangled, LowPriority, New, OneOf4,
    Recovered, WaitingForFridayAfternoon, WaitingForPrinter, WaitingForWorker, WorkInProgress,
};
use super::typestate::RepairOrder;
use super::Customer;

verus! {

/// The name of a state, without what the state carries.
#[derive(Debug, Clone, Copy, PartialEq, Eq, Structural)]
pub enum Label {
    New,
    Invalid,
    Recovered,
    AprilFools,
    LowPriority,
    HighPriority,
    WaitingForWorker,
    Garbage,
    WaitingForPrinter,
    WaitingForFridayAfternoon,
    WorkInProgress,
    Krangled,
    Finished,
}

impl Label {
    /// The text that stands for the label in a record.
    pub open spec fn name(self) -> Seq<char> {
        match self {
            Label::New => "New"@,
            Label::Invalid => "Invalid"@,
            Label::Recovered => "Recovered"@,
            Label::AprilFools => "AprilFools"@,
            Label::LowPriority => "LowPriority"@,
            Label::HighPriority => "HighPriority"@,
            Label::WaitingForWorker => "WaitingForWorker"@,
            Label::Garbage => "Garbage"@,
            Label::WaitingForPrinter => "WaitingForPrinter"@,
            Label::WaitingForFridayAfternoon => "WaitingForFridayAfternoon"@,
            Label::WorkInProgress => "WorkInProgress"@,
            Label::Krangled => "Krangled"@,
            Label::Finished => "Finished"@,
        }
    }

    /// The label that a text stands for, if it stands for one.
    pub open spec fn named(text: Seq<char>) -> Option<Label> {
        if text == Label::New.name() {
            Some(Label::New)
        } else if text == Label::Invalid.name() {
            Some(Label::Invalid)
        } else if text == Label::Recovered.name() {
            Some(Label::Recovered)
        } else if text == Label::AprilFools.name() {
            Some(Label::AprilFools)
        } else if text == Label::LowPriority.name() {
            Some(Label::LowPriority)
        } else if text == Label::HighPriority.name() {
            Some(Label::HighPriority)
        } else if text == Label::WaitingForWorker.name() {
            Some(Label::WaitingForWorker)
        } else if text == Label::Garbage.name() {
            Some(Label::Garbage)
        } else if text == Label::WaitingForPrinter.name() {
            Some(Label::WaitingForPrinter)
        } else if text == Label::WaitingForFridayAfternoon.name() {
            Some(Label::WaitingForFridayAfternoon)
        } else if text == Label::WorkInProgress.name() {
            Some(Label::WorkInProgress)
        } else if text == Label::Krangled.name() {
            Some(Label::Krangled)
        } else if text == Label::Finished.name() {
            Some(Label::Finished)
        } else {
            None
        }
    }

    /// Whether an order's life ends in this state.
    pub open spec fn is_terminal(self) -> bool {
        self is Finished || self is AprilFools || self is Garbage || self is Krangled
    }

    /// The state that follows this one for an order of the given number, if a
    /// step leads on from here. None leads on from a terminal state, nor from
    /// a reserved one.
    pub open spec fn successor(self, order_number: u64) -> Option<Label> {
        match self {
            Label::New => Some(
                if order_number % 4 == 0 {
                    Label::Invalid
                } else if order_number % 4 == 1 {
                    Label::LowPriority
                } else if order_number % 4 == 2 {
                    Label::HighPriority
                } else {
                    Label::AprilFools
                },
            ),
            Label::Invalid => Some(
                if recoverable(order_number) {
                    Label::Recovered
                } else {
                    Label::Krangled
                },
            ),
            Label::Recovered => Some(Label::LowPriority),
            Label::LowPriority => Some(
                if finds_worker(order_number) {
                    Label::WaitingForWorker
                } else {
                    Label::HighPriority
                },
            ),
            Label::HighPriority => Some(Label::WaitingForWorker),
            Label::WaitingForWorker => Some(
                if print_ready(order_number) {
                    Label::WaitingForPrinter
                } else {
                    Label::Garbage
                },
            ),
            Label::WaitingForPrinter => Some(Label::Finished),
            _ => None,
        }
    }

    /// The most steps that an order in this state can still take.
    pub open spec fn steps_to_end(self) -> nat {
        match self {
            Label::New => 7,
            Label::Invalid => 6,
            Label::Recovered => 5,
            Label::LowPriority => 4,
            Label::HighPriority => 3,
            Label::WaitingForWorker => 2,
            Label::WaitingForPrinter => 1,
            _ => 0,
        }
    }

    /// The label's name.
    pub fn as_str(self) -> (text: &'static str)
        ensures
            text@ == self.name(),
    {
        match self {
            Label::New => "New",
            Label::Invalid => "Invalid",
            Label::Recovered => "Recovered",
            Label::AprilFools => "AprilFools",
            Label::LowPriority => "LowPriority",
            Label::HighPriority => "HighPriority",
            Label::WaitingForWorker => "WaitingForWorker",
            Label::Garbage => "Garbage",
            Label::WaitingForPrinter => "WaitingForPrinter",
            Label::WaitingForFridayAfternoon => "WaitingForFridayAfternoon",
            Label::WorkInProgress => "WorkInProgress",
            Label::Krangled => "Krangled",
            Label::Finished => "Finished",
        }
    }

    /// Whether `text` is this label's name.
    fn spells(self, text: &String) -> (same: bool)
        ensures
            same == (text@ == self.name()),
    {
        let name = self.as_str().to_owned();
        *text == name
    }

    /// Reads a label from its name. Only the thirteen names as they are
    /// written stand for a label.
    pub fn parse(text: &str) -> (label: Option<Label>)
        ensures
            label == Label::named(text@),
    {
        let text = &text.to_owned();
        if Label::New.spells(text) {
            Some(Label::New)
        } else if Label::Invalid.spells(text) {
            Some(Label::Invalid)
        } else if Label::Recovered.spells(text) {
            Some(Label::Recovered)
        } else if Label::AprilFools.spells(text) {
            Some(Label::AprilFools)
        } else if Label::LowPriority.spells(text) {
            Some(Label::LowPriority)
        } else if Label::HighPriority.spells(text) {
            Some(Label::HighPriority)
        } else if Label::WaitingForWorker.spells(text) {
            Some(Label::WaitingForWorker)
        } else if Label::Garbage.spells(text) {
            Some(Label::Garbage)
        } else if Label::WaitingForPrinter.spells(text) {
            Some(Label::WaitingForPrinter)
        } else if Label::WaitingForFridayAfternoon.spells(text) {
            Some(Label::WaitingForFridayAfternoon)
        } else if Label::WorkInProgress.spells(text) {
            Some(Label::WorkInProgress)
        } else if Label::Krangled.spells(text) {
            Some(Label::Krangled)
        } else if Label::Finished.spells(text) {
            Some(Label::Finished)
        } else {
            None
        }
    }

    /// Whether an order's life ends in this state.
    pub fn terminal(self) -> (ends: bool)
        ensures
            ends == self.is_terminal(),
    {
        match self {
            Label::Finished | Label::AprilFools | Label::Garbage | Label::Krangled => true,
            _ => false,
        }
    }

    /// No two labels share a name: the name of a label stands for that label.
    pub proof fn named_inverts_name(self)
        ensures
            Label::named(self.name()) == Some(self),
    {
        reveal_strlit("New");
        reveal_strlit("Invalid");
        reveal_strlit("Recovered");
        reveal_strlit("AprilFools");
        reveal_strlit("LowPriority");
        reveal_strlit("HighPriority");
        reveal_strlit("WaitingForWorker");
        reveal_strlit("Garbage");
        reveal_strlit("WaitingForPrinter");
        reveal_strlit("WaitingForFridayAfternoon");
        reveal_strlit("WorkInProgress");
        reveal_strlit("Krangled");
        reveal_strlit("Finished");
        // Names of different lengths differ.
        assert("New"@.len() == 3);
        assert("Invalid"@.len() == 7);
        assert("Recovered"@.len() == 9);
        assert("AprilFools"@.len() == 10);
        assert("LowPriority"@.len() == 11);
        assert("HighPriority"@.len() == 12);
        assert("WaitingForWorker"@.len() == 16);
        assert("Garbage"@.len() == 7);
        assert("WaitingForPrinter"@.len() == 17);
        assert("WaitingForFridayAfternoon"@.len() == 25);
        assert("WorkInProgress"@.len() == 14);
        assert("Krangled"@.len() == 8);
        assert("Finished"@.len() == 8);
        // The two pairs of equal length differ in their first letter.
        assert("Invalid"@[0] == 'I' && "Garbage"@[0] == 'G');
        assert("Krangled"@[0] == 'K' && "Finished"@[0] == 'F');
    }
}

/// The state of an order, whichever it is, with what that state carries.
#[derive(Debug, Clone, PartialEq, Eq)]
pub enum States {
    New(New),
    Invalid(Invalid),
    Recovered(Recovered),
    AprilFools(AprilFools),
    LowPriority(LowPriority),
    HighPriority(HighPriority),
    WaitingForWorker(WaitingForWorker),
    Garbage(Garbage),
    WaitingForPrinter(WaitingForPrinter),
    WaitingForFridayAfternoon(WaitingForFridayAfternoon),
    WorkInProgress(WorkInProgress),
    Krangled(Krangled),
    Finished(Finished),
}

impl States {
    /// The name of the state.
    pub open spec fn spec_label(&self) -> Label {
        match self {
            States::New(_) => Label::New,
            States::Invalid(_) => Label::Invalid,
            States::Recovered(_) => Label::Recovered,
            States::AprilFools(_) => Label::AprilFools,
            States::LowPriority(_) => Label::LowPriority,
            States::HighPriority(_) => Label::HighPriority,
            States::WaitingForWorker(_) => Label::WaitingForWorker,
            States::Garbage(_) => Label::Garbage,
            States::WaitingForPrinter(_) => Label::WaitingForPrinter,
            States::WaitingForFridayAfternoon(_) => Label::WaitingForFridayAfternoon,
            States::WorkInProgress(_) => Label::WorkInProgress,
            States::Krangled(_) => Label::Krangled,
            States::Finished(_) => Label::Finished,
        }
    }

    /// The name of the state.
    #[verifier::when_used_as_spec(spec_label)]
    pub fn label(&self) -> (label: Label)
        ensures
            label == self.spec_label(),
    {
        match self {
            States::New(_) => Label::New,
            States::Invalid(_) => Label::Invalid,
            States::Recovered(_) => Label::Recovered,
            States::AprilFools(_) => Label::AprilFools,
            States::LowPriority(_) => Label::LowPriority,
            States::HighPriority(_) => Label::HighPriority,
            States::WaitingForWorker(_) => Label::WaitingForWorker,
            States::Garbage(_) => Label::Garbage,
            States::WaitingForPrinter(_) => Label::WaitingForPrinter,
            States::WaitingForFridayAfternoon(_) => Label::WaitingForFridayAfternoon,
            States::WorkInProgress(_) => Label::WorkInProgress,
            States::Krangled(_) => Label::Krangled,
            States::Finished(_) => Label::Finished,
        }
    }
}

impl From<New> for States {
    fn from(state: New) -> (tagged: States) {
        States::New(state)
    }
}

impl FromSpecImpl<New> for States {
    open spec fn obeys_from_spec() -> bool {
        true
    }

    open spec fn from_spec(state: New) -> States {
        States::New(state)
    }
}

impl From<Invalid> for States {
    fn from(state: Invalid) -> (tagged: States) {
        States::Invalid(state)
    }
}

impl FromSpecImpl<Invalid> for States {
    open spec fn obeys_from_spec() -> bool {
        true
    }

    open spec fn from_spec(state: Invalid) -> States {
        States::Invalid(state)
    }
}

impl From<Recovered> for States {
    fn from(state: Recovered) -> (tagged: States) {
        States::Recovered(state)
    }
}

impl FromSpecImpl<Recovered> for States {
    open spec fn obeys_from_spec() -> bool {
        true
    }

    open spec fn from_spec(state: Recovered) -> States {
        States::Recovered(state)
    }
}

impl From<AprilFools> for States {
    fn from(state: AprilFools) -> (tagged: States) {
        States::AprilFools(state)
    }
}

impl FromSpecImpl<AprilFools> for States {
    open spec fn obeys_from_spec() -> bool {
        true
    }

    open spec fn from_spec(state: AprilFools) -> States {
        States::AprilFools(state)
    }
}

impl From<LowPriority> for States {
    fn from(state: LowPriority) -> (tagged: States) {
        States::LowPriority(state)
    }
}

impl FromSpecImpl<LowPriority> for States {
    open spec fn obeys_from_spec() -> bool {
        true
    }

    open spec fn from_spec(state: LowPriority) -> States {
        States::LowPriority(state)
    }
}

impl From<HighPriority> for States {
    fn from(state: HighPriority) -> (tagged: States) {
        States::HighPriority(state)
    }
}

impl FromSpecImpl<HighPriority> for States {
    open spec fn obeys_from_spec() -> bool {
        true
    }

    open spec fn from_spec(state: HighPriority) -> States {
        States::HighPriority(state)
    }
}

impl From<WaitingForWorker> for States {
    fn from(state: WaitingForWorker) -> (tagged: States) {
        States::WaitingForWorker(state)
    }
}

impl FromSpecImpl<WaitingForWorker> for States {
    open spec fn obeys_from_spec() -> bool {
        true
    }

    open spec fn from_spec(state: WaitingForWorker) -> States {
        States::WaitingForWorker(state)
    }
}

impl From<Garbage> for States {
    fn from(state: Garbage) -> (tagged: States) {
        States::Garbage(state)
    }
}

impl FromSpecImpl<Garbage> for States {
    open spec fn obeys_from_spec() -> bool {
        true
    }

    open spec fn from_spec(state: Garbage) -> States {
        States::Garbage(state)
    }
}

impl From<WaitingForPrinter> for States {
    fn from(state: WaitingForPrinter) -> (tagged: States) {
        States::WaitingForPrinter(state)
    }
}

impl FromSpecImpl<WaitingForPrinter> for States {
    open spec fn obeys_from_spec() -> bool {
        true
    }

    open spec fn from_spec(state: WaitingForPrinter) -> States {
        States::WaitingForPrinter(state)
    }
}

impl From<WaitingForFridayAfternoon> for States {
    fn from(state: WaitingForFridayAfternoon) -> (tagged: States) {
        States::WaitingForFridayAfternoon(state)
    }
}

impl FromSpecImpl<WaitingForFridayAfternoon> for States {
    open spec fn obeys_from_spec() -> bool {
        true
    }

    open spec fn from_spec(state: WaitingForFridayAfternoon) -> States {
        States::WaitingForFridayAfternoon(state)
    }
}

impl From<WorkInProgress> for States {
    fn from(state: WorkInProgress) -> (tagged: States) {
        States::WorkInProgress(state)
    }
}

impl FromSpecImpl<WorkInProgress> for States {
    open spec fn obeys_from_spec() -> bool {
        true
    }

    open spec fn from_spec(state: WorkInProgress) -> States {
        States::WorkInProgress(state)
    }
}

impl From<Krangled> for States {
    fn from(state: Krangled) -> (tagged: States) {
        States::Krangled(state)
    }
}

impl FromSpecImpl<Krangled> for States {
    open spec fn obeys_from_spec() -> bool {
        true
    }

    open spec fn from_spec(state: Krangled) -> States {
        States::Krangled(state)
    }
}

impl From<Finished> for States {
    fn from(state: Finished) -> (tagged: States) {
        States::Finished(state)
    }
}

impl FromSpecImpl<Finished> for States {
    open spec fn obeys_from_spec() -> bool {
        true
    }

    open spec fn from_spec(state: Finished) -> States {
        States::Finished(state)
    }
}

/// The order with its state spelled out.
pub fn explicit<S: Into<States>>(order: RepairOrder<S>) -> (tagged: RepairOrder<States>)
    ensures
        S::obeys_into_spec() ==> tagged == order.in_state(order.state.into_spec()),
{
    let RepairOrder { order_number, damage_description, vehicle, customer, state } = order;
    RepairOrder { order_number, damage_description, vehicle, customer, state: state.into() }
}

/// A checkpoint as it is stored: the order's own fields, the name of its
/// state, and what that state carries. Only an Invalid order carries anything:
/// its validation errors.
#[derive(Debug, Clone, PartialEq, Eq)]
pub struct Record {
    pub state: String,
    pub order_number: u64,
    pub damage_description: Option<String>,
    pub vehicle: String,
    pub customer: Customer,
    pub validation_errors: Option<Vec<String>>,
}

/// Why a record is no checkpoint.
#[derive(Debug, Clone, Copy, PartialEq, Eq, Structural)]
pub enum FormatError {
    /// The record's state is no state's name.
    UnknownLabel,
    /// The record names a state and lacks what that state carries.
    MissingPayload,
    /// The record holds what its state does not carry.
    UnexpectedPayload,
}

/// What a state carries into a record.
pub open spec fn payload(state: States) -> Option<Vec<String>> {
    match state {
        States::Invalid(invalid) => Some(invalid.validation_errors),
        _ => None,
    }
}

/// Whether `record` is the checkpoint of `order`: it names the order's state
/// and holds, field for field, what the order holds.
pub open spec fn stores(record: Record, order: RepairOrder<States>) -> bool {
    &&& record.state@ == order.state.spec_label().name()
    &&& record.order_number == order.order_number
    &&& record.damage_description == order.damage_description
    &&& record.vehicle == order.vehicle
    &&& record.customer == order.customer
    &&& record.validation_errors == payload(order.state)
}

/// A state that carries nothing, read from a record: the record must hold
/// nothing for it.
pub open spec fn bare(state: States, payload: Option<Vec<String>>) -> Result<States, FormatError> {
    if payload is Some {
        Err(FormatError::UnexpectedPayload)
    } else {
        Ok(state)
    }
}

/// The state that a label and a record's payload stand for.
pub open spec fn state_of(label: Label, payload: Option<Vec<String>>) -> Result<
    States,
    FormatError,
> {
    match label {
        Label::Invalid => match payload {
            Some(validation_errors) => Ok(States::Invalid(Invalid { validation_errors })),
            None => Err(FormatError::MissingPayload),
        },
        Label::New => bare(States::New(New), payload),
        Label::Recovered => bare(States::Recovered(Recovered), payload),
        Label::AprilFools => bare(States::AprilFools(AprilFools), payload),
        Label::LowPriority => bare(States::LowPriority(LowPriority), payload),
        Label::HighPriority => bare(States::HighPriority(HighPriority), payload),
        Label::WaitingForWorker => bare(States::WaitingForWorker(WaitingForWorker), payload),
        Label::Garbage => bare(States::Garbage(Garbage), payload),
        Label::WaitingForPrinter => bare(States::WaitingForPrinter(WaitingForPrinter), payload),
        Label::WaitingForFridayAfternoon => bare(States::WaitingForFridayAfternoon(WaitingForFridayAfternoon), payload),
        Label::WorkInProgress => bare(States::WorkInProgress(WorkInProgress), payload),
        Label::Krangled => bare(States::Krangled(Krangled), payload),
        Label::Finished => bare(States::Finished(Finished), payload),
    }
}

/// The order that a record is the checkpoint of, or why it is none.
pub open spec fn decoded(record: Record) -> Result<RepairOrder<States>, FormatError> {
    match Label::named(record.state@) {
        None => Err(FormatError::UnknownLabel),
        Some(label) => match state_of(label, record.validation_errors) {
            Ok(state) => Ok(
                RepairOrder {
                    order_number: record.order_number,
                    damage_description: record.damage_description,
                    vehicle: record.vehicle,
                    customer: record.customer,
                    state,
                },
            ),
            Err(error) => Err(error),
        },
    }
}

/// Writes the checkpoint of an order.
pub fn encode(order: RepairOrder<States>) -> (record: Record)
    ensures
        stores(record, order),
{
    let RepairOrder { order_number, damage_description, vehicle, customer, state } = order;
    let label = state.label();
    let validation_errors = match state {
        States::Invalid(invalid) => Some(invalid.validation_errors),
        _ => None,
    };
    Record {
        state: label.as_str().to_owned(),
        order_number,
        damage_description,
        vehicle,
        customer,
        validation_errors,
    }
}

fn read_bare(state: States, payload: Option<Vec<String>>) -> (read: Result<States, FormatError>)
    ensures
        read == bare(state, payload),
{
    if payload.is_some() {
        Err(FormatError::UnexpectedPayload)
    } else {
        Ok(state)
    }
}

fn read_state(label: Label, payload: Option<Vec<String>>) -> (read: Result<States, FormatError>)
    ensures
        read == state_of(label, payload),
{
    match label {
        Label::Invalid => match payload {
            Some(validation_errors) => Ok(States::Invalid(Invalid { validation_errors })),
            None => Err(FormatError::MissingPayload),
        },
        Label::New => read_bare(States::New(New), payload),
        Label::Recovered => read_bare(States::Recovered(Recovered), payload),
        Label::AprilFools => read_bare(States::AprilFools(AprilFools), payload),
        Label::LowPriority => read_bare(States::LowPriority(LowPriority), payload),
        Label::HighPriority => read_bare(States::HighPriority(HighPriority), payload),
        Label::WaitingForWorker => read_bare(States::WaitingForWorker(WaitingForWorker), payload),
        Label::Garbage => read_bare(States::Garbage(Garbage), payload),
        Label::WaitingForPrinter => read_bare(States::WaitingForPrinter(WaitingForPrinter), payload),
        Label::WaitingForFridayAfternoon => read_bare(States::WaitingForFridayAfternoon(WaitingForFridayAfternoon), payload),
        Label::WorkInProgress => read_bare(States::WorkInProgress(WorkInProgress), payload),
        Label::Krangled => read_bare(States::Krangled(Krangled), payload),
        Label::Finished => read_bare(States::Finished(Finished), payload),
    }
}

/// Reads a checkpoint. A record whose state is no state's name, or whose
/// payload is not what that state carries, is refused: nothing in it is
/// guessed or dropped.
pub fn decode(record: Record) -> (order: Result<RepairOrder<States>, FormatError>)
    ensures
        order == decoded(record),
{
    let Record { state, order_number, damage_description, vehicle, customer, validation_errors } =
        record;
    let label = match Label::parse(state.as_str()) {
        Some(label) => label,
        None => {
            return Err(FormatError::UnknownLabel);
        },
    };
    match read_state(label, validation_errors) {
        Ok(state) => Ok(RepairOrder { order_number, damage_description, vehicle, customer, state }),
        Err(error) => Err(error),
    }
}

/// Reading a checkpoint gives back the order it was written from, field for
/// field, whichever state the order is in.
pub proof fn decode_inverts_encode(order: RepairOrder<States>, record: Record)
    requires
        stores(record, order),
    ensures
        decoded(record) == Ok::<RepairOrder<States>, FormatError>(order),
{
    order.state.spec_label().named_inverts_name();
}

/// A step was asked of an order in a state from which no step leads on.
#[derive(Debug, Clone, Copy, PartialEq, Eq, Structural)]
pub struct ContractViolation;

/// Why a checkpoint could not be processed.
#[derive(Debug, Clone, Copy, PartialEq, Eq, Structural)]
pub enum ProcessError {
    Format(FormatError),
    Contract(ContractViolation),
}

/// Whether one step takes the order `before` to `after`: it is the same
/// order, in the state that follows, and if that state is Invalid it carries
/// no error texts.
pub open spec fn advances(before: RepairOrder<States>, after: RepairOrder<States>) -> bool {
    &&& same_order(before, after)
    &&& before.state.spec_label().successor(before.order_number) == Some(after.state.spec_label())
    &&& after.state matches States::Invalid(invalid) ==> invalid.validation_errors@
        == Seq::<String>::empty()
}

/// Whether `run` is a run of the workflow: each order in it is one step on
/// from the order before it.
pub open spec fn is_run(run: Seq<RepairOrder<States>>) -> bool {
    forall|at: int| #![trigger run[at]] 0 <= at < run.len() - 1 ==> advances(run[at], run[at + 1])
}

/// The end state that an order reaches from the state it is in. A terminal
/// state is its own end, and a reserved state reaches none.
pub open spec fn outcome(order: RepairOrder<States>) -> Option<EndStates> {
    match order.state {
        States::New(_) => Some(end_of_new(order)),
        States::Invalid(_) => Some(end_of_invalid(order)),
        States::Recovered(_)
        | States::LowPriority(_)
        | States::HighPriority(_)
        | States::WaitingForWorker(_) => Some(end_of_queued(order)),
        States::WaitingForPrinter(_) | States::Finished(_) => Some(
            OneOf4::A(order.in_state(Finished)),
        ),
        States::AprilFools(_) => Some(OneOf4::B(order.in_state(AprilFools))),
        States::Garbage(_) => Some(OneOf4::C(order.in_state(Garbage))),
        States::Krangled(_) => Some(OneOf4::D(order.in_state(Krangled))),
        States::WaitingForFridayAfternoon(_) | States::WorkInProgress(_) => None,
    }
}

impl RepairOrder<States> {
    /// Takes the order one step on. An order in a terminal or a reserved
    /// state is refused.
    pub fn advance(self) -> (next: Result<RepairOrder<States>, ContractViolation>)
        ensures
            (match next {
                Ok(after) => advances(self, after),
                Err(_) => self.state.spec_label().successor(self.order_number) is None,
            }),
    {
        let RepairOrder { order_number, damage_description, vehicle, customer, state } = self;
        let order = RepairOrder { order_number, damage_description, vehicle, customer, state: () };
        match state {
            States::New(state) => Ok(
                match order.with_state(state).validate() {
                    OneOf4::A(invalid) => explicit(invalid),
                    OneOf4::B(low_prio) => explicit(low_prio),
                    OneOf4::C(high_prio) => explicit(high_prio),
                    OneOf4::D(april_fools) => explicit(april_fools),
                },
            ),
            States::Invalid(state) => Ok(
                match order.with_state(state).recover() {
                    Ok(recovered) => explicit(recovered),
                    Err(krangled) => explicit(krangled),
                },
            ),
            States::Recovered(state) => Ok(explicit(order.with_state(state).prioritize())),
            States::LowPriority(state) => Ok(
                match order.with_state(state).enqueue() {
                    Ok(waiting_for_worker) => explicit(waiting_for_worker),
                    Err(high_prio) => explicit(high_prio),
                },
            ),
            States::HighPriority(state) => Ok(explicit(order.with_state(state).enqueue())),
            States::WaitingForWorker(state) => Ok(
                match order.with_state(state).send_print_job() {
                    Ok(waiting_for_printer) => explicit(waiting_for_printer),
                    Err(garbage) => explicit(garbage),
                },
            ),
            States::WaitingForPrinter(state) => Ok(explicit(order.with_state(state).finish())),
            _ => Err(ContractViolation),
        }
    }
}

/// Takes an order from the state it is in to the end of its life. An order
/// in a terminal or a reserved state is refused.
pub fn resume(order: RepairOrder<States>) -> (end: Result<EndStates, ContractViolation>)
    ensures
        end == (if order.state.spec_label().successor(order.order_number) is Some {
            Ok::<EndStates, ContractViolation>(outcome(order)->0)
        } else {
            Err(ContractViolation)
        }),
{
    let RepairOrder { order_number, damage_description, vehicle, customer, state } = order;
    let order = RepairOrder { order_number, damage_description, vehicle, customer, state: () };
    match state {
        States::New(state) => Ok(super::complex_state::process(order.with_state(state))),
        States::Invalid(state) => Ok(process_invalid(order.with_state(state))),
        States::Recovered(state) => Ok(handle_low_prio(order.with_state(state).prioritize())),
        States::LowPriority(state) => Ok(handle_low_prio(order.with_state(state))),
        States::HighPriority(state) => Ok(handle_high_prio(order.with_state(state))),
        States::WaitingForWorker(state) => Ok(handle_waiting_for_worker(order.with_state(state))),
        States::WaitingForPrinter(state) => Ok(OneOf4::A(order.with_state(state).finish())),
        _ => Err(ContractViolation),
    }
}

/// No step leads on from a terminal state.
pub proof fn terminal_states_are_final(label: Label, order_number: u64)
    requires
        label.is_terminal(),
    ensures
        label.successor(order_number) is None,
{
}

/// No run goes in circles or gets stuck: every step leads to a state with
/// fewer steps to go, and that state is terminal or has a step of its own.
pub proof fn step_leads_on(label: Label, order_number: u64, next: Label)
    requires
        label.successor(order_number) == Some(next),
    ensures
        next.steps_to_end() < label.steps_to_end(),
        next.is_terminal() || next.successor(order_number) is Some,
{
}

/// A step does not change where an order ends: going on from the checkpoint
/// written after any step ends where the run without a stop ends.
pub proof fn step_keeps_outcome(before: RepairOrder<States>, after: RepairOrder<States>)
    requires
        advances(before, after),
    ensures
        outcome(after) == outcome(before),
{
}

/// Wherever a run has got to, the order still ends where it would have
/// ended at the start of the run.
pub proof fn run_keeps_outcome(run: Seq<RepairOrder<States>>, at: int)
    requires
        is_run(run),
        0 <= at < run.len(),
    ensures
        outcome(run[at]) == outcome(run[0]),
    decreases at,
{
    if at > 0 {
        run_keeps_outcome(run, at - 1);
        step_keeps_outcome(run[at - 1], run[at]);
    }
}

/// A run may stop at any checkpoint: the checkpoint written at any place in
/// the run of a new order reads back as the order in the state it had there,
/// and from there the order ends where the run without a stop ends.
pub proof fn checkpoint_keeps_outcome(
    order: RepairOrder<New>,
    run: Seq<RepairOrder<States>>,
    at: int,
    record: Record,
)
    requires
        is_run(run),
        0 <= at < run.len(),
        run[0] == order.in_state(States::New(order.state)),
        stores(record, run[at]),
    ensures
        decoded(record) == Ok::<RepairOrder<States>, FormatError>(run[at]),
        outcome(run[at]) == Some(end_of_new(order)),
{
    decode_inverts_encode(run[at], record);
    run_keeps_outcome(run, at);
}

/// Going on from the checkpoint of a new order ends where the run of that
/// order ends: whatever `resume` returns for the order with its state spelled
/// out is what `process` returns for the order.
pub proof fn resume_agrees_with_process(
    order: RepairOrder<New>,
    end: EndStates,
    resumed: Result<EndStates, ContractViolation>,
)
    requires
        call_ensures(super::complex_state::process, (order,), end),
        call_ensures(resume, (order.in_state(States::New(order.state)),), resumed),
    ensures
        resumed == Ok::<EndStates, ContractViolation>(end),
{
}

/// Takes the order of a checkpoint one step on and writes its next
/// checkpoint. Called again on each checkpoint it returns, until that names
/// a terminal state, it takes the order to the end of its life.
pub fn process(checkpoint: Record) -> (next: Result<Record, ProcessError>)
    ensures
        (match decoded(checkpoint) {
            Err(error) => next == Err::<Record, ProcessError>(ProcessError::Format(error)),
            Ok(order) => if order.state.spec_label().successor(order.order_number) is Some {
                &&& next matches Ok(record)
                &&& decoded(record) matches Ok(after)
                &&& advances(order, after)
            } else {
                next == Err::<Record, ProcessError>(ProcessError::Contract(ContractViolation))
            },
        }),
{
    let order = match decode(checkpoint) {
        Ok(order) => order,
        Err(error) => {
            return Err(ProcessError::Format(error));
        },
    };
    match order.advance() {
        Ok(after) => {
            let record = encode(after);
            proof {
                decode_inverts_encode(after, record);
            }
            Ok(record)
        },
        Err(violation) => Err(ProcessError::Contract(violation)),
    }
}

} // verus!
