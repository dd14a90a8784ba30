//! The bootstrap protocol: from a bare storage location to a ready,
//! schema-initialized handle, idempotently and in a fixed order.
//!
//! The decisions live here as a state machine: each state names the
//! outside effect the driver must perform next, and each reported
//! outcome picks the following state. The driver that actually touches
//! storage performs one action at a time — existence check, open, the
//! two guarded creation statements, Tag before Plan since Plan's foreign
//! key depends on Tag — and feeds the outcome back in. Any reported
//! failure aborts the whole acquisition: there is no partial success.
//!
//! Beside the machine stands a model of what the store holds, as a
//! multiset of structures, under which the protocol's guarantees are
//! proved: a first run leaves exactly one Tag structure and one Plan
//! structure, and every later run leaves the store unchanged.

use vstd::prelude::*;
use vstd::multiset::Multiset;

verus! {

broadcast use vstd::multiset::group_multiset_axioms;

/// The two relational structures the store must hold.
#[derive(Clone, Copy, PartialEq, Eq, Structural, Debug)]
pub enum TableId {
    /// The structure holding the tags.
    Tag,
    /// The structure holding the plans.
    Plan,
}

/// One outside effect the driver is asked to perform next.
#[derive(Clone, Copy, PartialEq, Eq, Structural, Debug)]
pub enum StoreAction {
    /// Ask the engine whether a store already exists at the location.
    CheckExists,
    /// Open the store, creating the underlying location if it is new.
    Open,
    /// Run the guarded statement that creates the Tag structure.
    CreateTagTable,
    /// Run the guarded statement that creates the Plan structure.
    CreatePlanTable,
    /// Hand the now-ready handle to the caller.
    YieldHandle,
    /// Give the acquisition up and surface the failure to the caller.
    Abort,
}

/// What the driver reports back after performing an action.
#[derive(Clone, Copy, PartialEq, Eq, Structural, Debug)]
pub enum StoreEvent {
    /// The existence check answered: true when a store was found.
    ExistsChecked(bool),
    /// The store was opened and a connection stands.
    Opened,
    /// A guarded creation statement ran through.
    TableCreated,
    /// The action failed; the engine's error is the driver's to carry.
    Failed,
}

/// Where the acquisition stands between two outside effects.
#[derive(Clone, Copy, PartialEq, Eq, Structural, Debug)]
pub enum BootstrapState {
    /// Waiting for the existence check.
    Checking,
    /// A store was found; waiting for it to open.
    OpeningExisting,
    /// No store was found; waiting for a fresh one to open.
    OpeningFresh,
    /// Waiting for the Tag structure's creation statement.
    CreatingTag,
    /// Waiting for the Plan structure's creation statement.
    CreatingPlan,
    /// The handle is ready for the caller.
    Ready,
    /// The acquisition failed; no usable store resulted.
    Failed,
}

/// The transition relation of the protocol: from where the acquisition
/// stands and what the driver reported, to where it stands next and what
/// the driver must do next.
pub open spec fn spec_step(s: BootstrapState, e: StoreEvent) -> (BootstrapState, StoreAction) {
    match (s, e) {
        (_, StoreEvent::Failed) => (BootstrapState::Failed, StoreAction::Abort),
        (BootstrapState::Checking, StoreEvent::ExistsChecked(true)) => (
            BootstrapState::OpeningExisting,
            StoreAction::Open,
        ),
        (BootstrapState::Checking, StoreEvent::ExistsChecked(false)) => (
            BootstrapState::OpeningFresh,
            StoreAction::Open,
        ),
        (BootstrapState::OpeningExisting, StoreEvent::Opened) => (
            BootstrapState::Ready,
            StoreAction::YieldHandle,
        ),
        (BootstrapState::OpeningFresh, StoreEvent::Opened) => (
            BootstrapState::CreatingTag,
            StoreAction::CreateTagTable,
        ),
        (BootstrapState::CreatingTag, StoreEvent::TableCreated) => (
            BootstrapState::CreatingPlan,
            StoreAction::CreatePlanTable,
        ),
        (BootstrapState::CreatingPlan, StoreEvent::TableCreated) => (
            BootstrapState::Ready,
            StoreAction::YieldHandle,
        ),
        _ => (BootstrapState::Failed, StoreAction::Abort),
    }
}

/// The state the acquisition starts in.
pub fn initial_state() -> (r: BootstrapState)
    ensures
        r == BootstrapState::Checking,
{
    BootstrapState::Checking
}

/// The first effect every acquisition asks for: the existence check.
pub fn initial_action() -> (r: StoreAction)
    ensures
        r == StoreAction::CheckExists,
{
    StoreAction::CheckExists
}

/// Advances the protocol by one reported outcome, handing back the next
/// state and the next effect to perform; an out-of-protocol report, like
/// any failure, leads to abortion.
pub fn step(s: BootstrapState, e: StoreEvent) -> (r: (BootstrapState, StoreAction))
    ensures
        r == spec_step(s, e),
{
    match (s, e) {
        (_, StoreEvent::Failed) => (BootstrapState::Failed, StoreAction::Abort),
        (BootstrapState::Checking, StoreEvent::ExistsChecked(true)) => (
            BootstrapState::OpeningExisting,
            StoreAction::Open,
        ),
        (BootstrapState::Checking, StoreEvent::ExistsChecked(false)) => (
            BootstrapState::OpeningFresh,
            StoreAction::Open,
        ),
        (BootstrapState::OpeningExisting, StoreEvent::Opened) => (
            BootstrapState::Ready,
            StoreAction::YieldHandle,
        ),
        (BootstrapState::OpeningFresh, StoreEvent::Opened) => (
            BootstrapState::CreatingTag,
            StoreAction::CreateTagTable,
        ),
        (BootstrapState::CreatingTag, StoreEvent::TableCreated) => (
            BootstrapState::CreatingPlan,
            StoreAction::CreatePlanTable,
        ),
        (BootstrapState::CreatingPlan, StoreEvent::TableCreated) => (
            BootstrapState::Ready,
            StoreAction::YieldHandle,
        ),
        _ => (BootstrapState::Failed, StoreAction::Abort),
    }
}

/// Guarded creation on the store model: the structure is added only
/// where no copy of it stands yet, so a re-run changes nothing.
pub open spec fn create_if_not_exists(tables: Multiset<TableId>, t: TableId) -> Multiset<TableId> {
    if tables.count(t) > 0 {
        tables
    } else {
        tables.insert(t)
    }
}

/// What one action does to the structures the store holds: only the two
/// creation statements touch them, and both are guarded.
pub open spec fn apply_action(tables: Multiset<TableId>, a: StoreAction) -> Multiset<TableId> {
    match a {
        StoreAction::CreateTagTable => create_if_not_exists(tables, TableId::Tag),
        StoreAction::CreatePlanTable => create_if_not_exists(tables, TableId::Plan),
        _ => tables,
    }
}

/// What one whole successful acquisition leaves in the store: an
/// existing store is opened and left as it stands; a fresh one gets the
/// Tag structure and then the Plan structure, each guarded.
pub open spec fn tables_after_bootstrap(existed: bool, tables: Multiset<TableId>) -> Multiset<
    TableId,
> {
    if existed {
        tables
    } else {
        apply_action(
            apply_action(tables, StoreAction::CreateTagTable),
            StoreAction::CreatePlanTable,
        )
    }
}

/// Re-running a guarded creation changes nothing, and after it at least
/// one copy of the structure stands.
pub proof fn lemma_create_if_not_exists_idempotent(tables: Multiset<TableId>, t: TableId)
    ensures
        create_if_not_exists(create_if_not_exists(tables, t), t) == create_if_not_exists(tables, t),
        create_if_not_exists(tables, t).count(t) >= 1,
{
}

/// Acquiring against an empty location leaves exactly one Tag structure
/// and one Plan structure, and nothing else.
pub proof fn lemma_fresh_bootstrap_from_empty()
    ensures
        tables_after_bootstrap(false, Multiset::empty()).count(TableId::Tag) == 1,
        tables_after_bootstrap(false, Multiset::empty()).count(TableId::Plan) == 1,
        tables_after_bootstrap(false, Multiset::empty()).len() == 2,
{
    let created = tables_after_bootstrap(false, Multiset::empty());
    assert(created.count(TableId::Tag) == 1);
    assert(created.count(TableId::Plan) == 1);
}

/// Acquisition is idempotent: once a first acquisition has run against a
/// fresh location, any later acquisition — whether its existence check
/// finds the store or not — leaves the structures exactly as they are.
/// In particular no second run duplicates a structure or re-creates one
/// destructively.
pub proof fn lemma_bootstrap_idempotent(later_existed: bool, tables: Multiset<TableId>)
    ensures
        tables_after_bootstrap(later_existed, tables_after_bootstrap(false, tables))
            == tables_after_bootstrap(false, tables),
{
    let once = tables_after_bootstrap(false, tables);
    assert(once.count(TableId::Tag) >= 1);
    assert(once.count(TableId::Plan) >= 1);
    assert(tables_after_bootstrap(later_existed, once) =~= once);
}

/// Where the machine stands after a whole sequence of reported
/// outcomes, taken in order.
pub open spec fn run(s: BootstrapState, events: Seq<StoreEvent>) -> BootstrapState
    decreases events.len(),
{
    if events.len() == 0 {
        s
    } else {
        run(spec_step(s, events[0]).0, events.subrange(1, events.len() as int))
    }
}

/// What the store holds after a whole sequence of reported outcomes:
/// each outcome advances the machine, and the action the machine asks
/// for next is performed on the model before the following outcome.
pub open spec fn run_tables(
    s: BootstrapState,
    events: Seq<StoreEvent>,
    tables: Multiset<TableId>,
) -> Multiset<TableId>
    decreases events.len(),
{
    if events.len() == 0 {
        tables
    } else {
        run_tables(
            spec_step(s, events[0]).0,
            events.subrange(1, events.len() as int),
            apply_action(tables, spec_step(s, events[0]).1),
        )
    }
}

/// The outcomes a driver reports when no store stands at the location
/// and every effect succeeds.
pub open spec fn fresh_trace() -> Seq<StoreEvent> {
    seq![
        StoreEvent::ExistsChecked(false),
        StoreEvent::Opened,
        StoreEvent::TableCreated,
        StoreEvent::TableCreated,
    ]
}

/// The outcomes a driver reports when a store already stands at the
/// location and every effect succeeds.
pub open spec fn existing_trace() -> Seq<StoreEvent> {
    seq![StoreEvent::ExistsChecked(true), StoreEvent::Opened]
}

/// Both successful paths of the protocol end ready to yield a handle:
/// a caller cannot tell a freshly created store from a found one through
/// the machine's final state.
pub proof fn lemma_both_paths_reach_ready()
    ensures
        run(BootstrapState::Checking, fresh_trace()) == BootstrapState::Ready,
        run(BootstrapState::Checking, existing_trace()) == BootstrapState::Ready,
{
    reveal_with_fuel(run, 5);
    let f = fresh_trace();
    assert(f.subrange(1, 4).subrange(1, 3) =~= f.subrange(2, 4));
    assert(f.subrange(2, 4).subrange(1, 2) =~= f.subrange(3, 4));
    assert(f.subrange(3, 4).subrange(1, 1) =~= Seq::<StoreEvent>::empty());
    let e = existing_trace();
    assert(e.subrange(1, 2).subrange(1, 1) =~= Seq::<StoreEvent>::empty());
}

/// Driven along the fresh path, the machine's actions leave the store
/// with exactly one Tag structure and one Plan structure; driven along
/// the found path, they leave the store untouched.
pub proof fn lemma_run_tables_matches_model(tables: Multiset<TableId>)
    ensures
        run_tables(BootstrapState::Checking, fresh_trace(), tables) == tables_after_bootstrap(
            false,
            tables,
        ),
        run_tables(BootstrapState::Checking, existing_trace(), tables) == tables,
{
    reveal_with_fuel(run_tables, 5);
    let f = fresh_trace();
    assert(f.subrange(1, 4).subrange(1, 3) =~= f.subrange(2, 4));
    assert(f.subrange(2, 4).subrange(1, 2) =~= f.subrange(3, 4));
    assert(f.subrange(3, 4).subrange(1, 1) =~= Seq::<StoreEvent>::empty());
    let e = existing_trace();
    assert(e.subrange(1, 2).subrange(1, 1) =~= Seq::<StoreEvent>::empty());
}

} // verus!
