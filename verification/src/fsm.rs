//! The fire-control machine: states, events, the transition-set table, and
//! the dispatcher that the declarative machine description stands for.
//!
//! The table is the static side of dispatch: it says which (state-kind,
//! event-kind) pairs may fire at all, and to which destination kinds. The
//! dynamic side is the exit hook of the current state, which picks the
//! concrete destination among the declared ones, consulting the shared
//! context (self-test result, configured firing mode). The dispatcher checks
//! the hook's choice against the table before installing it, so a hook that
//! drifted away from the table is caught as an internal-consistency failure
//! instead of silently steering the machine.

use vstd::prelude::*;

verus! {

use crate::compiler::{
    find_name, find_name_from, CompileError, MachineDef, TransitionDef, TransitionTable,
};
use vstd::pervasive::unreached;
use vstd::string::StringExecFns;

/// Configured firing mode; read by `Preloading`'s exit hook to pick among
/// the destinations that a full trigger pull may legally reach.
#[derive(Clone, Copy, Debug, Eq, PartialEq, Structural)]
pub enum TriggerMode {
    SAFE,
    SEMI,
    AUTO,
}

/// The discriminant of a `State`, independent of any payload.
#[derive(Clone, Copy, Debug, Eq, PartialEq, Structural)]
pub enum StateKind {
    PowerON,
    POSTError,
    Ready,
    BatteryVoltageLow,
    Overcurrent,
    Preloading,
    Safe,
    HalfAutoNFire,
    FullAutoFire,
}

/// The discriminant of an `Event`, independent of any payload.
#[derive(Clone, Copy, Debug, Eq, PartialEq, Structural)]
pub enum EventKind {
    POST,
    BatteryVoltageChange,
    SystemCurrentChange,
    PullHalfTrigger,
    PullFullTrigger,
    ReleaseTrigger,
}

/// Everything dispatch can fail with. Transition and hook errors are always
/// returned to the caller, never swallowed; what to do about them is the
/// poll loop's decision.
#[derive(Clone, Copy, Debug, Eq, PartialEq, Structural)]
pub enum Error {
    /// The current state does not accept the given event. Expected and
    /// recoverable: most events are simply irrelevant to most states.
    NoSuchTransition,
    /// An event's own hook reported a domain-level failure before any
    /// transition was attempted.
    EventHookRejected,
    /// An exit hook reported a domain-level failure; the state is unchanged.
    ExitHookFailed,
    /// An entry hook reported a domain-level failure after the transition
    /// was already committed.
    EntryHookFailed,
    /// A hook was reached that the transition-set table proves unreachable,
    /// or an exit hook chose a destination the table does not declare: the
    /// table and the hooks have diverged. Fatal, not a runtime condition to
    /// recover from.
    InternalInconsistency,
}

/// Shared context of the machine: the plain configuration and sensor
/// conclusions that hook logic reads. The surrounding application owns the
/// hardware that produces these values.
#[derive(Clone, Copy, Debug, Eq, PartialEq, Structural)]
pub struct FireControl {
    /// Whether the power-on self-test concluded successfully.
    pub post_passed: bool,
    /// The configured firing mode.
    pub trigger_mode: TriggerMode,
}

impl Default for FireControl {
    /// Fail-safe defaults: the self-test is presumed passed until a fault is
    /// reported, and the firing mode starts out safe.
    fn default() -> (r: Self)
        ensures
            r == (FireControl { post_passed: true, trigger_mode: TriggerMode::SAFE }),
    {
        FireControl { post_passed: true, trigger_mode: TriggerMode::SAFE }
    }
}

/// The transition-set table: whether the declaration lists the triple
/// (`event`, `from` => `to`). Multiple destinations for one (from, event)
/// pair are legal and stand for a runtime-decided branch.
pub open spec fn table_allows(from: StateKind, event: EventKind, to: StateKind) -> bool {
    match (event, from, to) {
        (EventKind::POST, StateKind::PowerON, StateKind::Ready) => true,
        (EventKind::POST, StateKind::PowerON, StateKind::POSTError) => true,
        (EventKind::BatteryVoltageChange, StateKind::Ready, StateKind::BatteryVoltageLow) => true,
        (EventKind::BatteryVoltageChange, StateKind::Safe, StateKind::BatteryVoltageLow) => true,
        (
            EventKind::BatteryVoltageChange,
            StateKind::Preloading,
            StateKind::BatteryVoltageLow,
        ) => true,
        (
            EventKind::BatteryVoltageChange,
            StateKind::HalfAutoNFire,
            StateKind::BatteryVoltageLow,
        ) => true,
        (
            EventKind::BatteryVoltageChange,
            StateKind::FullAutoFire,
            StateKind::BatteryVoltageLow,
        ) => true,
        (EventKind::SystemCurrentChange, StateKind::Preloading, StateKind::Overcurrent) => true,
        (EventKind::SystemCurrentChange, StateKind::HalfAutoNFire, StateKind::Overcurrent) => true,
        (EventKind::SystemCurrentChange, StateKind::FullAutoFire, StateKind::Overcurrent) => true,
        (EventKind::PullHalfTrigger, StateKind::Ready, StateKind::Preloading) => true,
        (EventKind::PullFullTrigger, StateKind::Preloading, StateKind::Safe) => true,
        (EventKind::PullFullTrigger, StateKind::Preloading, StateKind::HalfAutoNFire) => true,
        (EventKind::PullFullTrigger, StateKind::Preloading, StateKind::FullAutoFire) => true,
        (EventKind::ReleaseTrigger, StateKind::Safe, StateKind::Ready) => true,
        (EventKind::ReleaseTrigger, StateKind::HalfAutoNFire, StateKind::Ready) => true,
        (EventKind::ReleaseTrigger, StateKind::FullAutoFire, StateKind::Ready) => true,
        _ => false,
    }
}

/// Whether the table lists the (from, event) pair at all, with any
/// destination; `lemma_table_has_iff_destination` checks this against
/// `table_allows`.
pub open spec fn table_has(from: StateKind, event: EventKind) -> bool {
    match (event, from) {
        (EventKind::POST, StateKind::PowerON) => true,
        (EventKind::BatteryVoltageChange, StateKind::Ready) => true,
        (EventKind::BatteryVoltageChange, StateKind::Safe) => true,
        (EventKind::BatteryVoltageChange, StateKind::Preloading) => true,
        (EventKind::BatteryVoltageChange, StateKind::HalfAutoNFire) => true,
        (EventKind::BatteryVoltageChange, StateKind::FullAutoFire) => true,
        (EventKind::SystemCurrentChange, StateKind::Preloading) => true,
        (EventKind::SystemCurrentChange, StateKind::HalfAutoNFire) => true,
        (EventKind::SystemCurrentChange, StateKind::FullAutoFire) => true,
        (EventKind::PullHalfTrigger, StateKind::Ready) => true,
        (EventKind::PullFullTrigger, StateKind::Preloading) => true,
        (EventKind::ReleaseTrigger, StateKind::Safe) => true,
        (EventKind::ReleaseTrigger, StateKind::HalfAutoNFire) => true,
        (EventKind::ReleaseTrigger, StateKind::FullAutoFire) => true,
        _ => false,
    }
}

/// The two faces of the table agree: a (from, event) pair is listed exactly
/// when some destination is declared for it.
pub proof fn lemma_table_has_iff_destination(from: StateKind, event: EventKind)
    ensures
        table_has(from, event) <==> exists|to: StateKind| table_allows(from, event, to),
{
    if table_has(from, event) {
        let context = FireControl { post_passed: true, trigger_mode: TriggerMode::SAFE };
        assert(table_allows(from, event, decided_state(from, context, event).spec_kind()));
    }
}

/// Executable form of `table_allows`: the table as the dispatcher consults
/// it.
pub fn transition_allowed(from: StateKind, event: EventKind, to: StateKind) -> (b: bool)
    ensures
        b == table_allows(from, event, to),
{
    match (event, from, to) {
        (EventKind::POST, StateKind::PowerON, StateKind::Ready) => true,
        (EventKind::POST, StateKind::PowerON, StateKind::POSTError) => true,
        (EventKind::BatteryVoltageChange, StateKind::Ready, StateKind::BatteryVoltageLow) => true,
        (EventKind::BatteryVoltageChange, StateKind::Safe, StateKind::BatteryVoltageLow) => true,
        (
            EventKind::BatteryVoltageChange,
            StateKind::Preloading,
            StateKind::BatteryVoltageLow,
        ) => true,
        (
            EventKind::BatteryVoltageChange,
            StateKind::HalfAutoNFire,
            StateKind::BatteryVoltageLow,
        ) => true,
        (
            EventKind::BatteryVoltageChange,
            StateKind::FullAutoFire,
            StateKind::BatteryVoltageLow,
        ) => true,
        (EventKind::SystemCurrentChange, StateKind::Preloading, StateKind::Overcurrent) => true,
        (EventKind::SystemCurrentChange, StateKind::HalfAutoNFire, StateKind::Overcurrent) => true,
        (EventKind::SystemCurrentChange, StateKind::FullAutoFire, StateKind::Overcurrent) => true,
        (EventKind::PullHalfTrigger, StateKind::Ready, StateKind::Preloading) => true,
        (EventKind::PullFullTrigger, StateKind::Preloading, StateKind::Safe) => true,
        (EventKind::PullFullTrigger, StateKind::Preloading, StateKind::HalfAutoNFire) => true,
        (EventKind::PullFullTrigger, StateKind::Preloading, StateKind::FullAutoFire) => true,
        (EventKind::ReleaseTrigger, StateKind::Safe, StateKind::Ready) => true,
        (EventKind::ReleaseTrigger, StateKind::HalfAutoNFire, StateKind::Ready) => true,
        (EventKind::ReleaseTrigger, StateKind::FullAutoFire, StateKind::Ready) => true,
        _ => false,
    }
}

/// Executable form of `table_has`.
pub fn has_transition(from: StateKind, event: EventKind) -> (b: bool)
    ensures
        b == table_has(from, event),
{
    match (event, from) {
        (EventKind::POST, StateKind::PowerON) => true,
        (EventKind::BatteryVoltageChange, StateKind::Ready) => true,
        (EventKind::BatteryVoltageChange, StateKind::Safe) => true,
        (EventKind::BatteryVoltageChange, StateKind::Preloading) => true,
        (EventKind::BatteryVoltageChange, StateKind::HalfAutoNFire) => true,
        (EventKind::BatteryVoltageChange, StateKind::FullAutoFire) => true,
        (EventKind::SystemCurrentChange, StateKind::Preloading) => true,
        (EventKind::SystemCurrentChange, StateKind::HalfAutoNFire) => true,
        (EventKind::SystemCurrentChange, StateKind::FullAutoFire) => true,
        (EventKind::PullHalfTrigger, StateKind::Ready) => true,
        (EventKind::PullFullTrigger, StateKind::Preloading) => true,
        (EventKind::ReleaseTrigger, StateKind::Safe) => true,
        (EventKind::ReleaseTrigger, StateKind::HalfAutoNFire) => true,
        (EventKind::ReleaseTrigger, StateKind::FullAutoFire) => true,
        _ => false,
    }
}

/// What a state's entry hook returns: side effects succeed everywhere except
/// for the initial state, which the machine starts in and never transitions
/// into, so running its entry hook means the table and the hooks diverged.
pub open spec fn entry_outcome(kind: StateKind) -> Result<(), Error> {
    if kind == StateKind::PowerON {
        Err(Error::InternalInconsistency)
    } else {
        Ok(())
    }
}

/// What an event's own hook returns: pure validation, independent of the
/// current state. Every event of this machine validates unconditionally.
pub open spec fn on_outcome(kind: EventKind, context: FireControl) -> Result<(), Error> {
    Ok(())
}

/// The concrete next state that the exit hook of `from` decides on for
/// `event`, given the shared context. Only meaningful for pairs the table
/// lists; `exit_outcome` refuses the others.
pub open spec fn decided_state(from: StateKind, context: FireControl, event: EventKind) -> State {
    match (event, from) {
        (EventKind::POST, StateKind::PowerON) => if context.post_passed {
            State::Ready(Ready {})
        } else {
            State::POSTError(POSTError {})
        },
        (EventKind::BatteryVoltageChange, _) => State::BatteryVoltageLow(BatteryVoltageLow {}),
        (EventKind::SystemCurrentChange, _) => State::Overcurrent(Overcurrent {}),
        (EventKind::PullHalfTrigger, StateKind::Ready) => State::Preloading(Preloading {}),
        (EventKind::PullFullTrigger, StateKind::Preloading) => match context.trigger_mode {
            TriggerMode::SAFE => State::Safe(Safe {}),
            TriggerMode::SEMI => State::HalfAutoNFire(HalfAutoNFire {}),
            TriggerMode::AUTO => State::FullAutoFire(FullAutoFire {}),
        },
        (EventKind::ReleaseTrigger, _) => State::Ready(Ready {}),
        _ => State::PowerON(PowerON {}),
    }
}

/// What the exit hook of `from` returns for `event`: the decided next state
/// where the table lists the pair, and the internal-consistency failure
/// where it does not, since the table gates every exit-hook call.
pub open spec fn exit_outcome(from: StateKind, context: FireControl, event: EventKind) -> Result<
    State,
    Error,
> {
    if table_has(from, event) {
        Ok(decided_state(from, context, event))
    } else {
        Err(Error::InternalInconsistency)
    }
}

/// The whole dispatch algorithm as one function of the machine's state, its
/// context and the incoming event: the state afterwards and the returned
/// result. Failures before the transition leave the state alone; an entry
/// hook failing reports after the transition has already been committed.
pub open spec fn dispatch_outcome(state: State, context: FireControl, event: Event) -> (
    State,
    Result<(), Error>,
) {
    let from = state.spec_kind();
    let ek = event.spec_kind();
    match on_outcome(ek, context) {
        Err(e) => (state, Err(e)),
        Ok(()) => if !table_has(from, ek) {
            (state, Err(Error::NoSuchTransition))
        } else {
            match exit_outcome(from, context, ek) {
                Err(e) => (state, Err(e)),
                Ok(next) => if !table_allows(from, ek, next.spec_kind()) {
                    (state, Err(Error::InternalInconsistency))
                } else {
                    match entry_outcome(next.spec_kind()) {
                        Err(e) => (next, Err(e)),
                        Ok(()) => (next, Ok(())),
                    }
                },
            }
        },
    }
}

/// Initial state: the machine starts here; no payload.
#[derive(Clone, Copy, Debug, Eq, PartialEq, Structural)]
pub struct PowerON {}

impl PowerON {
    /// Entry hook. The machine starts *in* this state and the table never
    /// names it as a destination, so being called is itself the failure.
    pub fn entry(&self) -> (r: Result<(), Error>)
        ensures
            r == entry_outcome(StateKind::PowerON),
    {
        Err(Error::InternalInconsistency)
    }

    /// Exit hook: the self-test verdict in the context decides between
    /// `Ready` and `POSTError`, the two destinations the table declares.
    pub fn exit(&self, context: &FireControl, event: EventKind) -> (r: Result<State, Error>)
        ensures
            r == exit_outcome(StateKind::PowerON, *context, event),
    {
        match event {
            EventKind::POST => if context.post_passed {
                Ok(State::Ready(Ready {}))
            } else {
                Ok(State::POSTError(POSTError {}))
            },
            _ => Err(Error::InternalInconsistency),
        }
    }
}

/// The power-on self-test concluded with a failure; terminal.
#[derive(Clone, Copy, Debug, Eq, PartialEq, Structural)]
pub struct POSTError {}

impl POSTError {
    /// Entry hook: annunciate the fault; nothing can go wrong here.
    pub fn entry(&self) -> (r: Result<(), Error>)
        ensures
            r == entry_outcome(StateKind::POSTError),
    {
        Ok(())
    }

    /// Exit hook. The table lists no transition out of this state, so being
    /// called is an internal-consistency failure.
    pub fn exit(&self, context: &FireControl, event: EventKind) -> (r: Result<State, Error>)
        ensures
            r == exit_outcome(StateKind::POSTError, *context, event),
    {
        Err(Error::InternalInconsistency)
    }
}

/// Self-test passed; idle and accepting trigger input.
#[derive(Clone, Copy, Debug, Eq, PartialEq, Structural)]
pub struct Ready {}

impl Ready {
    /// Entry hook.
    pub fn entry(&self) -> (r: Result<(), Error>)
        ensures
            r == entry_outcome(StateKind::Ready),
    {
        Ok(())
    }

    /// Exit hook: a battery fault leads to `BatteryVoltageLow`, a half pull
    /// of the trigger to `Preloading`.
    pub fn exit(&self, context: &FireControl, event: EventKind) -> (r: Result<State, Error>)
        ensures
            r == exit_outcome(StateKind::Ready, *context, event),
    {
        match event {
            EventKind::BatteryVoltageChange => Ok(State::BatteryVoltageLow(BatteryVoltageLow {})),
            EventKind::PullHalfTrigger => Ok(State::Preloading(Preloading {})),
            _ => Err(Error::InternalInconsistency),
        }
    }
}

/// Battery voltage fell out of range; terminal until power-off.
#[derive(Clone, Copy, Debug, Eq, PartialEq, Structural)]
pub struct BatteryVoltageLow {}

impl BatteryVoltageLow {
    /// Entry hook: annunciate the fault.
    pub fn entry(&self) -> (r: Result<(), Error>)
        ensures
            r == entry_outcome(StateKind::BatteryVoltageLow),
    {
        Ok(())
    }

    /// Exit hook. The table lists no transition out of this state.
    pub fn exit(&self, context: &FireControl, event: EventKind) -> (r: Result<State, Error>)
        ensures
            r == exit_outcome(StateKind::BatteryVoltageLow, *context, event),
    {
        Err(Error::InternalInconsistency)
    }
}

/// System current exceeded its limit while loading or firing; terminal.
#[derive(Clone, Copy, Debug, Eq, PartialEq, Structural)]
pub struct Overcurrent {}

impl Overcurrent {
    /// Entry hook: annunciate the fault.
    pub fn entry(&self) -> (r: Result<(), Error>)
        ensures
            r == entry_outcome(StateKind::Overcurrent),
    {
        Ok(())
    }

    /// Exit hook. The table lists no transition out of this state.
    pub fn exit(&self, context: &FireControl, event: EventKind) -> (r: Result<State, Error>)
        ensures
            r == exit_outcome(StateKind::Overcurrent, *context, event),
    {
        Err(Error::InternalInconsistency)
    }
}

/// Half trigger pulled: the mechanism is preloading.
#[derive(Clone, Copy, Debug, Eq, PartialEq, Structural)]
pub struct Preloading {}

impl Preloading {
    /// Entry hook.
    pub fn entry(&self) -> (r: Result<(), Error>)
        ensures
            r == entry_outcome(StateKind::Preloading),
    {
        Ok(())
    }

    /// Exit hook: faults lead to their fault states; a full pull of the
    /// trigger picks among `Safe`, `HalfAutoNFire` and `FullAutoFire` by the
    /// firing mode configured in the context.
    pub fn exit(&self, context: &FireControl, event: EventKind) -> (r: Result<State, Error>)
        ensures
            r == exit_outcome(StateKind::Preloading, *context, event),
    {
        match event {
            EventKind::BatteryVoltageChange => Ok(State::BatteryVoltageLow(BatteryVoltageLow {})),
            EventKind::SystemCurrentChange => Ok(State::Overcurrent(Overcurrent {})),
            EventKind::PullFullTrigger => match context.trigger_mode {
                TriggerMode::SAFE => Ok(State::Safe(Safe {})),
                TriggerMode::SEMI => Ok(State::HalfAutoNFire(HalfAutoNFire {})),
                TriggerMode::AUTO => Ok(State::FullAutoFire(FullAutoFire {})),
            },
            _ => Err(Error::InternalInconsistency),
        }
    }
}

/// Full trigger pulled while the firing mode is safe: nothing fires.
#[derive(Clone, Copy, Debug, Eq, PartialEq, Structural)]
pub struct Safe {}

impl Safe {
    /// Entry hook.
    pub fn entry(&self) -> (r: Result<(), Error>)
        ensures
            r == entry_outcome(StateKind::Safe),
    {
        Ok(())
    }

    /// Exit hook: a battery fault leads to `BatteryVoltageLow`; releasing
    /// the trigger returns to `Ready`.
    pub fn exit(&self, context: &FireControl, event: EventKind) -> (r: Result<State, Error>)
        ensures
            r == exit_outcome(StateKind::Safe, *context, event),
    {
        match event {
            EventKind::BatteryVoltageChange => Ok(State::BatteryVoltageLow(BatteryVoltageLow {})),
            EventKind::ReleaseTrigger => Ok(State::Ready(Ready {})),
            _ => Err(Error::InternalInconsistency),
        }
    }
}

/// Firing one round per pull: semi-automatic mode.
#[derive(Clone, Copy, Debug, Eq, PartialEq, Structural)]
pub struct HalfAutoNFire {}

impl HalfAutoNFire {
    /// Entry hook.
    pub fn entry(&self) -> (r: Result<(), Error>)
        ensures
            r == entry_outcome(StateKind::HalfAutoNFire),
    {
        Ok(())
    }

    /// Exit hook: faults lead to their fault states; releasing the trigger
    /// returns to `Ready`.
    pub fn exit(&self, context: &FireControl, event: EventKind) -> (r: Result<State, Error>)
        ensures
            r == exit_outcome(StateKind::HalfAutoNFire, *context, event),
    {
        match event {
            EventKind::BatteryVoltageChange => Ok(State::BatteryVoltageLow(BatteryVoltageLow {})),
            EventKind::SystemCurrentChange => Ok(State::Overcurrent(Overcurrent {})),
            EventKind::ReleaseTrigger => Ok(State::Ready(Ready {})),
            _ => Err(Error::InternalInconsistency),
        }
    }
}

/// Firing continuously while the trigger stays pulled: automatic mode.
#[derive(Clone, Copy, Debug, Eq, PartialEq, Structural)]
pub struct FullAutoFire {}

impl FullAutoFire {
    /// Entry hook.
    pub fn entry(&self) -> (r: Result<(), Error>)
        ensures
            r == entry_outcome(StateKind::FullAutoFire),
    {
        Ok(())
    }

    /// Exit hook: faults lead to their fault states; releasing the trigger
    /// returns to `Ready`.
    pub fn exit(&self, context: &FireControl, event: EventKind) -> (r: Result<State, Error>)
        ensures
            r == exit_outcome(StateKind::FullAutoFire, *context, event),
    {
        match event {
            EventKind::BatteryVoltageChange => Ok(State::BatteryVoltageLow(BatteryVoltageLow {})),
            EventKind::SystemCurrentChange => Ok(State::Overcurrent(Overcurrent {})),
            EventKind::ReleaseTrigger => Ok(State::Ready(Ready {})),
            _ => Err(Error::InternalInconsistency),
        }
    }
}

/// Power-on self-test requested.
#[derive(Clone, Copy, Debug, Eq, PartialEq, Structural)]
pub struct Post {}

impl Post {
    /// Event hook: pure validation, independent of the current state.
    pub fn on(&self, context: &FireControl) -> (r: Result<(), Error>)
        ensures
            r == on_outcome(EventKind::POST, *context),
    {
        Ok(())
    }
}

/// The battery voltage left its allowed range.
#[derive(Clone, Copy, Debug, Eq, PartialEq, Structural)]
pub struct BatteryVoltageChange {}

impl BatteryVoltageChange {
    /// Event hook: pure validation, independent of the current state.
    pub fn on(&self, context: &FireControl) -> (r: Result<(), Error>)
        ensures
            r == on_outcome(EventKind::BatteryVoltageChange, *context),
    {
        Ok(())
    }
}

/// The system current left its allowed range.
#[derive(Clone, Copy, Debug, Eq, PartialEq, Structural)]
pub struct SystemCurrentChange {}

impl SystemCurrentChange {
    /// Event hook: pure validation, independent of the current state.
    pub fn on(&self, context: &FireControl) -> (r: Result<(), Error>)
        ensures
            r == on_outcome(EventKind::SystemCurrentChange, *context),
    {
        Ok(())
    }
}

/// The trigger reached its half-pull detent.
#[derive(Clone, Copy, Debug, Eq, PartialEq, Structural)]
pub struct PullHalfTrigger {}

impl PullHalfTrigger {
    /// Event hook: pure validation, independent of the current state.
    pub fn on(&self, context: &FireControl) -> (r: Result<(), Error>)
        ensures
            r == on_outcome(EventKind::PullHalfTrigger, *context),
    {
        Ok(())
    }
}

/// The trigger was pulled all the way.
#[derive(Clone, Copy, Debug, Eq, PartialEq, Structural)]
pub struct PullFullTrigger {}

impl PullFullTrigger {
    /// Event hook: pure validation, independent of the current state.
    pub fn on(&self, context: &FireControl) -> (r: Result<(), Error>)
        ensures
            r == on_outcome(EventKind::PullFullTrigger, *context),
    {
        Ok(())
    }
}

/// The trigger was released.
#[derive(Clone, Copy, Debug, Eq, PartialEq, Structural)]
pub struct ReleaseTrigger {}

impl ReleaseTrigger {
    /// Event hook: pure validation, independent of the current state.
    pub fn on(&self, context: &FireControl) -> (r: Result<(), Error>)
        ensures
            r == on_outcome(EventKind::ReleaseTrigger, *context),
    {
        Ok(())
    }
}

/// The closed sum of states. Exactly one value is current at any time,
/// owned by the machine.
#[derive(Clone, Copy, Debug, Eq, PartialEq, Structural)]
pub enum State {
    PowerON(PowerON),
    POSTError(POSTError),
    Ready(Ready),
    BatteryVoltageLow(BatteryVoltageLow),
    Overcurrent(Overcurrent),
    Preloading(Preloading),
    Safe(Safe),
    HalfAutoNFire(HalfAutoNFire),
    FullAutoFire(FullAutoFire),
}

impl State {
    /// The state's discriminant.
    pub open spec fn spec_kind(&self) -> StateKind {
        match self {
            State::PowerON(_) => StateKind::PowerON,
            State::POSTError(_) => StateKind::POSTError,
            State::Ready(_) => StateKind::Ready,
            State::BatteryVoltageLow(_) => StateKind::BatteryVoltageLow,
            State::Overcurrent(_) => StateKind::Overcurrent,
            State::Preloading(_) => StateKind::Preloading,
            State::Safe(_) => StateKind::Safe,
            State::HalfAutoNFire(_) => StateKind::HalfAutoNFire,
            State::FullAutoFire(_) => StateKind::FullAutoFire,
        }
    }

    /// The state's discriminant.
    #[verifier::when_used_as_spec(spec_kind)]
    pub fn kind(&self) -> (k: StateKind)
        ensures
            k == self.spec_kind(),
    {
        match self {
            State::PowerON(_) => StateKind::PowerON,
            State::POSTError(_) => StateKind::POSTError,
            State::Ready(_) => StateKind::Ready,
            State::BatteryVoltageLow(_) => StateKind::BatteryVoltageLow,
            State::Overcurrent(_) => StateKind::Overcurrent,
            State::Preloading(_) => StateKind::Preloading,
            State::Safe(_) => StateKind::Safe,
            State::HalfAutoNFire(_) => StateKind::HalfAutoNFire,
            State::FullAutoFire(_) => StateKind::FullAutoFire,
        }
    }
}

impl Default for State {
    /// The designated initial state; constructed, never transitioned into.
    fn default() -> (r: Self)
        ensures
            r == State::PowerON(PowerON {}),
    {
        State::PowerON(PowerON {})
    }
}

/// The closed sum of events. Transient values: once dispatched they are
/// consumed.
#[derive(Clone, Copy, Debug, Eq, PartialEq, Structural)]
pub enum Event {
    POST(Post),
    BatteryVoltageChange(BatteryVoltageChange),
    SystemCurrentChange(SystemCurrentChange),
    PullHalfTrigger(PullHalfTrigger),
    PullFullTrigger(PullFullTrigger),
    ReleaseTrigger(ReleaseTrigger),
}

impl Event {
    /// The event's discriminant.
    pub open spec fn spec_kind(&self) -> EventKind {
        match self {
            Event::POST(_) => EventKind::POST,
            Event::BatteryVoltageChange(_) => EventKind::BatteryVoltageChange,
            Event::SystemCurrentChange(_) => EventKind::SystemCurrentChange,
            Event::PullHalfTrigger(_) => EventKind::PullHalfTrigger,
            Event::PullFullTrigger(_) => EventKind::PullFullTrigger,
            Event::ReleaseTrigger(_) => EventKind::ReleaseTrigger,
        }
    }

    /// The event's discriminant.
    #[verifier::when_used_as_spec(spec_kind)]
    pub fn kind(&self) -> (k: EventKind)
        ensures
            k == self.spec_kind(),
    {
        match self {
            Event::POST(_) => EventKind::POST,
            Event::BatteryVoltageChange(_) => EventKind::BatteryVoltageChange,
            Event::SystemCurrentChange(_) => EventKind::SystemCurrentChange,
            Event::PullHalfTrigger(_) => EventKind::PullHalfTrigger,
            Event::PullFullTrigger(_) => EventKind::PullFullTrigger,
            Event::ReleaseTrigger(_) => EventKind::ReleaseTrigger,
        }
    }
}

/// The machine: the current state plus the shared context that hook logic
/// reads. Created once at boot and alive until power-off.
pub struct Machine {
    context: FireControl,
    state: State,
}

impl Machine {
    /// The current state, as contracts see it.
    pub closed spec fn spec_state(self) -> State {
        self.state
    }

    /// The shared context, as contracts see it.
    pub closed spec fn spec_context(self) -> FireControl {
        self.context
    }

    /// A machine in its designated initial state with fail-safe context
    /// defaults; no entry hook runs — the system starts *in* the state.
    pub fn new() -> (m: Machine)
        ensures
            m.spec_state() == State::PowerON(PowerON {}),
            m.spec_context() == (FireControl {
                post_passed: true,
                trigger_mode: TriggerMode::SAFE,
            }),
    {
        Machine { context: FireControl::default(), state: State::default() }
    }

    /// A machine in its designated initial state with the given context.
    pub fn with_context(context: FireControl) -> (m: Machine)
        ensures
            m.spec_state() == State::PowerON(PowerON {}),
            m.spec_context() == context,
    {
        Machine { context, state: State::default() }
    }

    /// Read-only observation of the current state, for the poll loop to
    /// branch on fault states without mutating anything.
    pub fn state(&self) -> (s: &State)
        ensures
            *s == self.spec_state(),
    {
        &self.state
    }

    /// Dispatch one event: run the event's own hook; look the (state-kind,
    /// event-kind) pair up in the transition-set table; let the current
    /// state's exit hook decide the concrete next state; check that decision
    /// against the table; install it; run the new state's entry hook. The
    /// first failure is returned; the state has moved exactly when the
    /// outcome says so.
    pub fn event(&mut self, event: Event) -> (r: Result<(), Error>)
        ensures
            final(self).spec_context() == old(self).spec_context(),
            (final(self).spec_state(), r) == dispatch_outcome(
                old(self).spec_state(),
                old(self).spec_context(),
                event,
            ),
            !table_has(old(self).spec_state().spec_kind(), event.spec_kind()) ==> r == Err::<
                (),
                Error,
            >(Error::NoSuchTransition) && final(self).spec_state() == old(self).spec_state(),
            r is Ok ==> table_allows(
                old(self).spec_state().spec_kind(),
                event.spec_kind(),
                final(self).spec_state().spec_kind(),
            ),
    {
        let on_result = match event {
            Event::POST(e) => e.on(&self.context),
            Event::BatteryVoltageChange(e) => e.on(&self.context),
            Event::SystemCurrentChange(e) => e.on(&self.context),
            Event::PullHalfTrigger(e) => e.on(&self.context),
            Event::PullFullTrigger(e) => e.on(&self.context),
            Event::ReleaseTrigger(e) => e.on(&self.context),
        };
        if let Err(e) = on_result {
            return Err(e);
        }
        let from = self.state.kind();
        let ek = event.kind();
        if !has_transition(from, ek) {
            return Err(Error::NoSuchTransition);
        }
        let exit_result = match self.state {
            State::PowerON(s) => s.exit(&self.context, ek),
            State::POSTError(s) => s.exit(&self.context, ek),
            State::Ready(s) => s.exit(&self.context, ek),
            State::BatteryVoltageLow(s) => s.exit(&self.context, ek),
            State::Overcurrent(s) => s.exit(&self.context, ek),
            State::Preloading(s) => s.exit(&self.context, ek),
            State::Safe(s) => s.exit(&self.context, ek),
            State::HalfAutoNFire(s) => s.exit(&self.context, ek),
            State::FullAutoFire(s) => s.exit(&self.context, ek),
        };
        let next = match exit_result {
            Ok(n) => n,
            Err(e) => {
                return Err(e);
            },
        };
        if !transition_allowed(from, ek, next.kind()) {
            return Err(Error::InternalInconsistency);
        }
        self.state = next;
        let entry_result = match next {
            State::PowerON(s) => s.entry(),
            State::POSTError(s) => s.entry(),
            State::Ready(s) => s.entry(),
            State::BatteryVoltageLow(s) => s.entry(),
            State::Overcurrent(s) => s.entry(),
            State::Preloading(s) => s.entry(),
            State::Safe(s) => s.entry(),
            State::HalfAutoNFire(s) => s.entry(),
            State::FullAutoFire(s) => s.entry(),
        };
        match entry_result {
            Ok(()) => Ok(()),
            Err(e) => Err(e),
        }
    }
}

/// `BatteryVoltageLow` absorbs: the table lists no pair with it as source,
/// so every event dispatched there is answered with `NoSuchTransition` and
/// the machine stays put.
pub proof fn lemma_battery_voltage_low_accepts_nothing(
    state: State,
    context: FireControl,
    event: Event,
)
    requires
        state.spec_kind() == StateKind::BatteryVoltageLow,
    ensures
        dispatch_outcome(state, context, event) == (state, Err::<(), Error>(
            Error::NoSuchTransition,
        )),
{
}

/// The position of a state kind among the declaration's state names.
pub open spec fn state_index(kind: StateKind) -> int {
    match kind {
        StateKind::PowerON => 0,
        StateKind::POSTError => 1,
        StateKind::Ready => 2,
        StateKind::BatteryVoltageLow => 3,
        StateKind::Overcurrent => 4,
        StateKind::Preloading => 5,
        StateKind::Safe => 6,
        StateKind::HalfAutoNFire => 7,
        StateKind::FullAutoFire => 8,
    }
}

/// The position of an event kind among the declaration's event names.
pub open spec fn event_index(kind: EventKind) -> int {
    match kind {
        EventKind::POST => 0,
        EventKind::BatteryVoltageChange => 1,
        EventKind::SystemCurrentChange => 2,
        EventKind::PullHalfTrigger => 3,
        EventKind::PullFullTrigger => 4,
        EventKind::ReleaseTrigger => 5,
    }
}

/// The state names of the fire-control declaration, in order.
pub open spec fn fire_control_state_names() -> Seq<Seq<char>> {
    seq![
        "PowerON"@,
        "POSTError"@,
        "Ready"@,
        "BatteryVoltageLow"@,
        "Overcurrent"@,
        "Preloading"@,
        "Safe"@,
        "HalfAutoNFire"@,
        "FullAutoFire"@,
    ]
}

/// The event names of the fire-control declaration, in order.
pub open spec fn fire_control_event_names() -> Seq<Seq<char>> {
    seq![
        "POST"@,
        "BatteryVoltageChange"@,
        "SystemCurrentChange"@,
        "PullHalfTrigger"@,
        "PullFullTrigger"@,
        "ReleaseTrigger"@,
    ]
}

/// The declared transitions, in order: (event, from, to) names.
pub open spec fn fire_control_transition_names() -> Seq<(Seq<char>, Seq<char>, Seq<char>)> {
    seq![
        ("POST"@, "PowerON"@, "Ready"@),
        ("POST"@, "PowerON"@, "POSTError"@),
        ("BatteryVoltageChange"@, "Ready"@, "BatteryVoltageLow"@),
        ("BatteryVoltageChange"@, "Safe"@, "BatteryVoltageLow"@),
        ("BatteryVoltageChange"@, "Preloading"@, "BatteryVoltageLow"@),
        ("BatteryVoltageChange"@, "HalfAutoNFire"@, "BatteryVoltageLow"@),
        ("BatteryVoltageChange"@, "FullAutoFire"@, "BatteryVoltageLow"@),
        ("SystemCurrentChange"@, "Preloading"@, "Overcurrent"@),
        ("SystemCurrentChange"@, "HalfAutoNFire"@, "Overcurrent"@),
        ("SystemCurrentChange"@, "FullAutoFire"@, "Overcurrent"@),
        ("PullHalfTrigger"@, "Ready"@, "Preloading"@),
        ("PullFullTrigger"@, "Preloading"@, "Safe"@),
        ("PullFullTrigger"@, "Preloading"@, "HalfAutoNFire"@),
        ("PullFullTrigger"@, "Preloading"@, "FullAutoFire"@),
        ("ReleaseTrigger"@, "Safe"@, "Ready"@),
        ("ReleaseTrigger"@, "HalfAutoNFire"@, "Ready"@),
        ("ReleaseTrigger"@, "FullAutoFire"@, "Ready"@),
    ]
}

/// The index triples the declaration compiles to, in (from, event, to)
/// order of indices, one per declared transition.
pub open spec fn fire_control_triples() -> Seq<(int, int, int)> {
    seq![
        (0int, 0int, 2int),
        (0int, 0int, 1int),
        (2int, 1int, 3int),
        (6int, 1int, 3int),
        (5int, 1int, 3int),
        (7int, 1int, 3int),
        (8int, 1int, 3int),
        (5int, 2int, 4int),
        (7int, 2int, 4int),
        (8int, 2int, 4int),
        (2int, 3int, 5int),
        (5int, 4int, 6int),
        (5int, 4int, 7int),
        (5int, 4int, 8int),
        (6int, 5int, 2int),
        (7int, 5int, 2int),
        (8int, 5int, 2int),
    ]
}

/// Build one transition entry of the declaration.
fn transition_def(event: &str, from: &str, to: &str) -> (t: TransitionDef)
    ensures
        t.event@ == event@,
        t.from@ == from@,
        t.to@ == to@,
{
    TransitionDef {
        event: String::from_str(event),
        from: String::from_str(from),
        to: String::from_str(to),
    }
}

/// The fire-control machine's own declaration, as data the compiler takes:
/// the same states, events and transitions that `table_allows` states.
pub fn fire_control_def() -> (d: MachineDef)
    ensures
        d.context@ == "FireControl"@,
        d.state_names() == fire_control_state_names(),
        d.event_names() == fire_control_event_names(),
        d.transitions@.len() == fire_control_transition_names().len(),
        forall|j: int|
            0 <= j < d.transitions@.len() ==> ((#[trigger] d.transitions@[j]).event@,
            d.transitions@[j].from@, d.transitions@[j].to@) == fire_control_transition_names()[j],
{
    let mut states: Vec<String> = Vec::new();
    states.push(String::from_str("PowerON"));
    states.push(String::from_str("POSTError"));
    states.push(String::from_str("Ready"));
    states.push(String::from_str("BatteryVoltageLow"));
    states.push(String::from_str("Overcurrent"));
    states.push(String::from_str("Preloading"));
    states.push(String::from_str("Safe"));
    states.push(String::from_str("HalfAutoNFire"));
    states.push(String::from_str("FullAutoFire"));
    let mut events: Vec<String> = Vec::new();
    events.push(String::from_str("POST"));
    events.push(String::from_str("BatteryVoltageChange"));
    events.push(String::from_str("SystemCurrentChange"));
    events.push(String::from_str("PullHalfTrigger"));
    events.push(String::from_str("PullFullTrigger"));
    events.push(String::from_str("ReleaseTrigger"));
    let mut transitions: Vec<TransitionDef> = Vec::new();
    transitions.push(transition_def("POST", "PowerON", "Ready"));
    transitions.push(transition_def("POST", "PowerON", "POSTError"));
    transitions.push(transition_def("BatteryVoltageChange", "Ready", "BatteryVoltageLow"));
    transitions.push(transition_def("BatteryVoltageChange", "Safe", "BatteryVoltageLow"));
    transitions.push(transition_def("BatteryVoltageChange", "Preloading", "BatteryVoltageLow"));
    transitions.push(transition_def("BatteryVoltageChange", "HalfAutoNFire", "BatteryVoltageLow"));
    transitions.push(transition_def("BatteryVoltageChange", "FullAutoFire", "BatteryVoltageLow"));
    transitions.push(transition_def("SystemCurrentChange", "Preloading", "Overcurrent"));
    transitions.push(transition_def("SystemCurrentChange", "HalfAutoNFire", "Overcurrent"));
    transitions.push(transition_def("SystemCurrentChange", "FullAutoFire", "Overcurrent"));
    transitions.push(transition_def("PullHalfTrigger", "Ready", "Preloading"));
    transitions.push(transition_def("PullFullTrigger", "Preloading", "Safe"));
    transitions.push(transition_def("PullFullTrigger", "Preloading", "HalfAutoNFire"));
    transitions.push(transition_def("PullFullTrigger", "Preloading", "FullAutoFire"));
    transitions.push(transition_def("ReleaseTrigger", "Safe", "Ready"));
    transitions.push(transition_def("ReleaseTrigger", "HalfAutoNFire", "Ready"));
    transitions.push(transition_def("ReleaseTrigger", "FullAutoFire", "Ready"));
    let d = MachineDef { context: String::from_str("FireControl"), states, events, transitions };
    proof {
        assert(d.state_names() =~= fire_control_state_names());
        assert(d.event_names() =~= fire_control_event_names());
    }
    d
}

/// Each declared state name resolves to its position in the declaration.
#[verifier::rlimit(100)]
proof fn lemma_fire_control_state_resolution()
    ensures
        find_name(fire_control_state_names(), "PowerON"@) == Some(0int),
        find_name(fire_control_state_names(), "POSTError"@) == Some(1int),
        find_name(fire_control_state_names(), "Ready"@) == Some(2int),
        find_name(fire_control_state_names(), "BatteryVoltageLow"@) == Some(3int),
        find_name(fire_control_state_names(), "Overcurrent"@) == Some(4int),
        find_name(fire_control_state_names(), "Preloading"@) == Some(5int),
        find_name(fire_control_state_names(), "Safe"@) == Some(6int),
        find_name(fire_control_state_names(), "HalfAutoNFire"@) == Some(7int),
        find_name(fire_control_state_names(), "FullAutoFire"@) == Some(8int),
{
    reveal_strlit("PowerON");
    reveal_strlit("POSTError");
    reveal_strlit("Ready");
    reveal_strlit("BatteryVoltageLow");
    reveal_strlit("Overcurrent");
    reveal_strlit("Preloading");
    reveal_strlit("Safe");
    reveal_strlit("HalfAutoNFire");
    reveal_strlit("FullAutoFire");
    assert(fire_control_state_names()[0] == "PowerON"@);
    assert(fire_control_state_names()[1] == "POSTError"@);
    assert(fire_control_state_names()[2] == "Ready"@);
    assert(fire_control_state_names()[3] == "BatteryVoltageLow"@);
    assert(fire_control_state_names()[4] == "Overcurrent"@);
    assert(fire_control_state_names()[5] == "Preloading"@);
    assert(fire_control_state_names()[6] == "Safe"@);
    assert(fire_control_state_names()[7] == "HalfAutoNFire"@);
    assert(fire_control_state_names()[8] == "FullAutoFire"@);
    assert("PowerON"@.len() == 7);
    assert("POSTError"@.len() == 9);
    assert("Ready"@.len() == 5);
    assert("BatteryVoltageLow"@.len() == 17);
    assert("Overcurrent"@.len() == 11);
    assert("Preloading"@.len() == 10);
    assert("Safe"@.len() == 4);
    assert("HalfAutoNFire"@.len() == 13);
    assert("FullAutoFire"@.len() == 12);
    assert(find_name_from(fire_control_state_names(), "PowerON"@, 0) == Some(0int));
    assert(find_name_from(fire_control_state_names(), "POSTError"@, 1) == Some(1int));
    assert(find_name_from(fire_control_state_names(), "POSTError"@, 0) == Some(1int));
    assert(find_name_from(fire_control_state_names(), "Ready"@, 2) == Some(2int));
    assert(find_name_from(fire_control_state_names(), "Ready"@, 1) == Some(2int));
    assert(find_name_from(fire_control_state_names(), "Ready"@, 0) == Some(2int));
    assert(find_name_from(fire_control_state_names(), "BatteryVoltageLow"@, 3) == Some(3int));
    assert(find_name_from(fire_control_state_names(), "BatteryVoltageLow"@, 2) == Some(3int));
    assert(find_name_from(fire_control_state_names(), "BatteryVoltageLow"@, 1) == Some(3int));
    assert(find_name_from(fire_control_state_names(), "BatteryVoltageLow"@, 0) == Some(3int));
    assert(find_name_from(fire_control_state_names(), "Overcurrent"@, 4) == Some(4int));
    assert(find_name_from(fire_control_state_names(), "Overcurrent"@, 3) == Some(4int));
    assert(find_name_from(fire_control_state_names(), "Overcurrent"@, 2) == Some(4int));
    assert(find_name_from(fire_control_state_names(), "Overcurrent"@, 1) == Some(4int));
    assert(find_name_from(fire_control_state_names(), "Overcurrent"@, 0) == Some(4int));
    assert(find_name_from(fire_control_state_names(), "Preloading"@, 5) == Some(5int));
    assert(find_name_from(fire_control_state_names(), "Preloading"@, 4) == Some(5int));
    assert(find_name_from(fire_control_state_names(), "Preloading"@, 3) == Some(5int));
    assert(find_name_from(fire_control_state_names(), "Preloading"@, 2) == Some(5int));
    assert(find_name_from(fire_control_state_names(), "Preloading"@, 1) == Some(5int));
    assert(find_name_from(fire_control_state_names(), "Preloading"@, 0) == Some(5int));
    assert(find_name_from(fire_control_state_names(), "Safe"@, 6) == Some(6int));
    assert(find_name_from(fire_control_state_names(), "Safe"@, 5) == Some(6int));
    assert(find_name_from(fire_control_state_names(), "Safe"@, 4) == Some(6int));
    assert(find_name_from(fire_control_state_names(), "Safe"@, 3) == Some(6int));
    assert(find_name_from(fire_control_state_names(), "Safe"@, 2) == Some(6int));
    assert(find_name_from(fire_control_state_names(), "Safe"@, 1) == Some(6int));
    assert(find_name_from(fire_control_state_names(), "Safe"@, 0) == Some(6int));
    assert(find_name_from(fire_control_state_names(), "HalfAutoNFire"@, 7) == Some(7int));
    assert(find_name_from(fire_control_state_names(), "HalfAutoNFire"@, 6) == Some(7int));
    assert(find_name_from(fire_control_state_names(), "HalfAutoNFire"@, 5) == Some(7int));
    assert(find_name_from(fire_control_state_names(), "HalfAutoNFire"@, 4) == Some(7int));
    assert(find_name_from(fire_control_state_names(), "HalfAutoNFire"@, 3) == Some(7int));
    assert(find_name_from(fire_control_state_names(), "HalfAutoNFire"@, 2) == Some(7int));
    assert(find_name_from(fire_control_state_names(), "HalfAutoNFire"@, 1) == Some(7int));
    assert(find_name_from(fire_control_state_names(), "HalfAutoNFire"@, 0) == Some(7int));
    assert(find_name_from(fire_control_state_names(), "FullAutoFire"@, 8) == Some(8int));
    assert(find_name_from(fire_control_state_names(), "FullAutoFire"@, 7) == Some(8int));
    assert(find_name_from(fire_control_state_names(), "FullAutoFire"@, 6) == Some(8int));
    assert(find_name_from(fire_control_state_names(), "FullAutoFire"@, 5) == Some(8int));
    assert(find_name_from(fire_control_state_names(), "FullAutoFire"@, 4) == Some(8int));
    assert(find_name_from(fire_control_state_names(), "FullAutoFire"@, 3) == Some(8int));
    assert(find_name_from(fire_control_state_names(), "FullAutoFire"@, 2) == Some(8int));
    assert(find_name_from(fire_control_state_names(), "FullAutoFire"@, 1) == Some(8int));
    assert(find_name_from(fire_control_state_names(), "FullAutoFire"@, 0) == Some(8int));
}

/// Each declared event name resolves to its position in the declaration.
#[verifier::rlimit(100)]
proof fn lemma_fire_control_event_resolution()
    ensures
        find_name(fire_control_event_names(), "POST"@) == Some(0int),
        find_name(fire_control_event_names(), "BatteryVoltageChange"@) == Some(1int),
        find_name(fire_control_event_names(), "SystemCurrentChange"@) == Some(2int),
        find_name(fire_control_event_names(), "PullHalfTrigger"@) == Some(3int),
        find_name(fire_control_event_names(), "PullFullTrigger"@) == Some(4int),
        find_name(fire_control_event_names(), "ReleaseTrigger"@) == Some(5int),
{
    reveal_strlit("POST");
    reveal_strlit("BatteryVoltageChange");
    reveal_strlit("SystemCurrentChange");
    reveal_strlit("PullHalfTrigger");
    reveal_strlit("PullFullTrigger");
    reveal_strlit("ReleaseTrigger");
    assert(fire_control_event_names()[0] == "POST"@);
    assert(fire_control_event_names()[1] == "BatteryVoltageChange"@);
    assert(fire_control_event_names()[2] == "SystemCurrentChange"@);
    assert(fire_control_event_names()[3] == "PullHalfTrigger"@);
    assert(fire_control_event_names()[4] == "PullFullTrigger"@);
    assert(fire_control_event_names()[5] == "ReleaseTrigger"@);
    assert("POST"@.len() == 4);
    assert("BatteryVoltageChange"@.len() == 20);
    assert("SystemCurrentChange"@.len() == 19);
    assert("PullHalfTrigger"@.len() == 15);
    assert("PullFullTrigger"@.len() == 15);
    assert("ReleaseTrigger"@.len() == 14);
    assert("PullHalfTrigger"@[4] == 'H');
    assert("PullFullTrigger"@[4] == 'F');
    assert("PullHalfTrigger"@ != "PullFullTrigger"@);
    assert(find_name_from(fire_control_event_names(), "POST"@, 0) == Some(0int));
    assert(find_name_from(fire_control_event_names(), "BatteryVoltageChange"@, 1) == Some(1int));
    assert(find_name_from(fire_control_event_names(), "BatteryVoltageChange"@, 0) == Some(1int));
    assert(find_name_from(fire_control_event_names(), "SystemCurrentChange"@, 2) == Some(2int));
    assert(find_name_from(fire_control_event_names(), "SystemCurrentChange"@, 1) == Some(2int));
    assert(find_name_from(fire_control_event_names(), "SystemCurrentChange"@, 0) == Some(2int));
    assert(find_name_from(fire_control_event_names(), "PullHalfTrigger"@, 3) == Some(3int));
    assert(find_name_from(fire_control_event_names(), "PullHalfTrigger"@, 2) == Some(3int));
    assert(find_name_from(fire_control_event_names(), "PullHalfTrigger"@, 1) == Some(3int));
    assert(find_name_from(fire_control_event_names(), "PullHalfTrigger"@, 0) == Some(3int));
    assert(find_name_from(fire_control_event_names(), "PullFullTrigger"@, 4) == Some(4int));
    assert(find_name_from(fire_control_event_names(), "PullFullTrigger"@, 3) == Some(4int));
    assert(find_name_from(fire_control_event_names(), "PullFullTrigger"@, 2) == Some(4int));
    assert(find_name_from(fire_control_event_names(), "PullFullTrigger"@, 1) == Some(4int));
    assert(find_name_from(fire_control_event_names(), "PullFullTrigger"@, 0) == Some(4int));
    assert(find_name_from(fire_control_event_names(), "ReleaseTrigger"@, 5) == Some(5int));
    assert(find_name_from(fire_control_event_names(), "ReleaseTrigger"@, 4) == Some(5int));
    assert(find_name_from(fire_control_event_names(), "ReleaseTrigger"@, 3) == Some(5int));
    assert(find_name_from(fire_control_event_names(), "ReleaseTrigger"@, 2) == Some(5int));
    assert(find_name_from(fire_control_event_names(), "ReleaseTrigger"@, 1) == Some(5int));
    assert(find_name_from(fire_control_event_names(), "ReleaseTrigger"@, 0) == Some(5int));
}

/// Compile the fire-control declaration. The compiler accepts it, and the
/// table it freezes holds exactly the machine's transition set: one index
/// triple per declared transition, in declaration order.
#[verifier::rlimit(50)]
pub fn fire_control_table() -> (t: TransitionTable)
    ensures
        t.wf(),
        t.spec_state_count() == fire_control_state_names().len(),
        t.spec_event_count() == fire_control_event_names().len(),
        t.spec_triples() == fire_control_triples(),
{
    let def = fire_control_def();
    let result = def.compile();
    proof {
        lemma_fire_control_state_resolution();
        lemma_fire_control_event_resolution();
        reveal_strlit("FireControl");
        if result is Err {
            let e = result->Err_0;
            match e {
                CompileError::MissingContext => {
                    assert(false);
                },
                CompileError::UnresolvedEvent(j) => {
                    assert(false);
                },
                CompileError::UnresolvedFromState(j) => {
                    assert(false);
                },
                CompileError::UnresolvedToState(j) => {
                    assert(false);
                },
            }
        }
    }
    let table = match result {
        Ok(t) => t,
        Err(_) => unreached(),
    };
    proof {
        assert forall|j: int| 0 <= j < 17 implies #[trigger] table.spec_triples()[j]
            == fire_control_triples()[j] by {
            assert(table.spec_triples()[j] == def.triple_of(j));
        }
        assert(table.spec_triples() =~= fire_control_triples());
    }
    table
}

/// The compiled table says the same thing as the machine's own
/// transition-set table: a triple of kinds is allowed exactly when the
/// declaration's compiled index triples contain its index image.
#[verifier::rlimit(100)]
pub proof fn lemma_compiled_table_matches_transition_set()
    ensures
        forall|from: StateKind, event: EventKind, to: StateKind|
            #[trigger] table_allows(from, event, to) <==> fire_control_triples().contains(
                (state_index(from), event_index(event), state_index(to)),
            ),
{
    assert(fire_control_triples()[0] == (0int, 0int, 2int));
    assert(fire_control_triples().contains((0int, 0int, 2int)));
    assert(fire_control_triples()[1] == (0int, 0int, 1int));
    assert(fire_control_triples().contains((0int, 0int, 1int)));
    assert(fire_control_triples()[2] == (2int, 1int, 3int));
    assert(fire_control_triples().contains((2int, 1int, 3int)));
    assert(fire_control_triples()[3] == (6int, 1int, 3int));
    assert(fire_control_triples().contains((6int, 1int, 3int)));
    assert(fire_control_triples()[4] == (5int, 1int, 3int));
    assert(fire_control_triples().contains((5int, 1int, 3int)));
    assert(fire_control_triples()[5] == (7int, 1int, 3int));
    assert(fire_control_triples().contains((7int, 1int, 3int)));
    assert(fire_control_triples()[6] == (8int, 1int, 3int));
    assert(fire_control_triples().contains((8int, 1int, 3int)));
    assert(fire_control_triples()[7] == (5int, 2int, 4int));
    assert(fire_control_triples().contains((5int, 2int, 4int)));
    assert(fire_control_triples()[8] == (7int, 2int, 4int));
    assert(fire_control_triples().contains((7int, 2int, 4int)));
    assert(fire_control_triples()[9] == (8int, 2int, 4int));
    assert(fire_control_triples().contains((8int, 2int, 4int)));
    assert(fire_control_triples()[10] == (2int, 3int, 5int));
    assert(fire_control_triples().contains((2int, 3int, 5int)));
    assert(fire_control_triples()[11] == (5int, 4int, 6int));
    assert(fire_control_triples().contains((5int, 4int, 6int)));
    assert(fire_control_triples()[12] == (5int, 4int, 7int));
    assert(fire_control_triples().contains((5int, 4int, 7int)));
    assert(fire_control_triples()[13] == (5int, 4int, 8int));
    assert(fire_control_triples().contains((5int, 4int, 8int)));
    assert(fire_control_triples()[14] == (6int, 5int, 2int));
    assert(fire_control_triples().contains((6int, 5int, 2int)));
    assert(fire_control_triples()[15] == (7int, 5int, 2int));
    assert(fire_control_triples().contains((7int, 5int, 2int)));
    assert(fire_control_triples()[16] == (8int, 5int, 2int));
    assert(fire_control_triples().contains((8int, 5int, 2int)));
    assert forall|from: StateKind, event: EventKind, to: StateKind| #[trigger] table_allows(
        from,
        event,
        to,
    ) <==> fire_control_triples().contains(
        (state_index(from), event_index(event), state_index(to)),
    ) by {
        let key = (state_index(from), event_index(event), state_index(to));
        if fire_control_triples().contains(key) {
            let k = choose|k: int|
                0 <= k < fire_control_triples().len() && fire_control_triples()[k] == key;
            assert(fire_control_triples()[k] == key);
            assert(table_allows(from, event, to));
        }
    }
}

/// Any (state-kind, event-kind) pair outside the transition-set table is
/// rejected: dispatch returns `NoSuchTransition` and leaves the state — and
/// the context — exactly as they were.
pub proof fn lemma_unlisted_pair_rejected(state: State, context: FireControl, event: Event)
    requires
        !table_has(state.spec_kind(), event.spec_kind()),
    ensures
        dispatch_outcome(state, context, event) == (state, Err::<(), Error>(
            Error::NoSuchTransition,
        )),
{
}

/// Any pair the table lists dispatches successfully, whatever the context,
/// and the state it reaches is one of the pair's declared destinations.
pub proof fn lemma_listed_pair_reaches_declared_destination(
    state: State,
    context: FireControl,
    event: Event,
)
    requires
        table_has(state.spec_kind(), event.spec_kind()),
    ensures
        ({
            let (next, r) = dispatch_outcome(state, context, event);
            &&& r == Ok::<(), Error>(())
            &&& table_allows(state.spec_kind(), event.spec_kind(), next.spec_kind())
        }),
{
    let from = state.spec_kind();
    let ek = event.spec_kind();
    let next = decided_state(from, context, ek);
    assert(table_allows(from, ek, next.spec_kind()));
    assert(next.spec_kind() != StateKind::PowerON);
}

} // verus!
