//! Laws of persistent resources over a reliable storage medium.
//!
//! A reliable medium performs every request a persistent resource makes and
//! its storage format gives back exactly what it was given. Over such a
//! medium, the operations of a persistent resource settle into the states
//! that the laws below state.

use crate::error::PersistenceError;
use crate::format::StorageFormat;
use crate::persistent::{Outcome, PersistentView, Request, Step, Task};
use crate::storage::StorageView;
use vstd::prelude::*;

verus! {

/// What a storage medium holds.
pub enum Medium<R> {
    /// Nothing is stored.
    Vacant,
    /// A resource is stored, and reads give it back.
    Holds(R),
    /// Something is stored that reads cannot give back: reading fails with the error.
    Garbled(PersistenceError),
}

/// The error of reading a vacant medium.
pub open spec fn missing() -> PersistenceError {
    PersistenceError::Filesystem(arbitrary())
}

/// A reliable medium serving `request` for a persistent resource in state
/// `state`: the medium afterwards, and the outcome.
pub open spec fn serve<R>(medium: Medium<R>, state: PersistentView<R>, request: Request) -> (
    Medium<R>,
    Outcome<R>,
) {
    match request {
        Request::CheckOccupied => (medium, Outcome::Occupied(!(medium is Vacant))),
        Request::InitializeStorage => (medium, Outcome::Initialized(Ok(()))),
        Request::WriteDefault => (Medium::Holds(state.default.unwrap()), Outcome::Written(Ok(()))),
        Request::WriteResource => (
            Medium::Holds(state.resource.unwrap()),
            Outcome::Written(Ok(())),
        ),
        Request::ReadResource => (
            medium,
            Outcome::Read(
                match medium {
                    Medium::Holds(resource) => Ok(resource),
                    Medium::Garbled(error) => Err(error),
                    Medium::Vacant => Err(missing()),
                },
            ),
        ),
        Request::CopyDefault => (medium, Outcome::Copied(Ok(state.default.unwrap()))),
    }
}

/// Runs an operation from `step` over a reliable medium for at most `fuel`
/// requests: the medium, the state and the result when it is done.
pub open spec fn run<R>(medium: Medium<R>, state: PersistentView<R>, step: Step, fuel: nat) -> (
    Medium<R>,
    PersistentView<R>,
    Result<(), PersistenceError>,
)
    decreases fuel,
{
    match step {
        Step::Done(result) => (medium, state, result),
        Step::Perform(request) => if fuel == 0 {
            (medium, state, Err(missing()))
        } else {
            let (next_medium, outcome) = serve(medium, state, request);
            let (next_state, next_step) = state.resumed(outcome);
            run(next_medium, next_state, next_step, (fuel - 1) as nat)
        },
    }
}

/// Where an operation from `step` settles over a reliable medium. No
/// operation makes more than four requests.
pub open spec fn settle<R>(medium: Medium<R>, state: PersistentView<R>, step: Step) -> (
    Medium<R>,
    PersistentView<R>,
    Result<(), PersistenceError>,
) {
    run(medium, state, step, 4)
}

/// Failures of a storage medium: every write fails with `write`, if set, and
/// every copy of the default through the storage format fails with `copy`,
/// if set. A failed write stores nothing.
pub struct Faults {
    pub write: Option<PersistenceError>,
    pub copy: Option<PersistenceError>,
}

/// A medium with `faults` serving `request`: failing writes and copies fail,
/// everything else is served reliably.
pub open spec fn serve_with<R>(
    medium: Medium<R>,
    state: PersistentView<R>,
    request: Request,
    faults: Faults,
) -> (Medium<R>, Outcome<R>) {
    match request {
        Request::WriteDefault | Request::WriteResource => match faults.write {
            Some(error) => (medium, Outcome::Written(Err(error))),
            None => serve(medium, state, request),
        },
        Request::CopyDefault => match faults.copy {
            Some(error) => (medium, Outcome::Copied(Err(error))),
            None => serve(medium, state, request),
        },
        _ => serve(medium, state, request),
    }
}

/// Runs an operation from `step` over a medium with `faults` for at most
/// `fuel` requests: the medium, the state and the result when it is done.
pub open spec fn run_with<R>(
    medium: Medium<R>,
    state: PersistentView<R>,
    step: Step,
    faults: Faults,
    fuel: nat,
) -> (Medium<R>, PersistentView<R>, Result<(), PersistenceError>)
    decreases fuel,
{
    match step {
        Step::Done(result) => (medium, state, result),
        Step::Perform(request) => if fuel == 0 {
            (medium, state, Err(missing()))
        } else {
            let (next_medium, outcome) = serve_with(medium, state, request, faults);
            let (next_state, next_step) = state.resumed(outcome);
            run_with(next_medium, next_state, next_step, faults, (fuel - 1) as nat)
        },
    }
}

/// Where an operation from `step` settles over a medium with `faults`.
pub open spec fn settle_with<R>(
    medium: Medium<R>,
    state: PersistentView<R>,
    step: Step,
    faults: Faults,
) -> (Medium<R>, PersistentView<R>, Result<(), PersistenceError>) {
    run_with(medium, state, step, faults, 4)
}

/// The state of a resource that is done creating: idle, loaded with
/// `resource`, keeping its default only if revertible.
pub open spec fn settled_creation<R>(
    name: Seq<char>,
    format: StorageFormat,
    storage: StorageView,
    resource: Option<R>,
    default: R,
    revertible: bool,
    revert_on_error: bool,
) -> PersistentView<R> {
    PersistentView {
        name,
        format,
        storage,
        resource,
        default: if revertible {
            Some(default)
        } else {
            None
        },
        revert_on_error,
        revertible,
        creating: false,
        task: Task::Idle,
    }
}

/// First run: creating a resource on a vacant medium stores its default, and
/// loads the default if the resource is to be loaded.
pub proof fn law_first_run<R>(
    name: Seq<char>,
    format: StorageFormat,
    storage: StorageView,
    loaded: bool,
    default: R,
    revertible: bool,
    revert_on_error: bool,
)
    requires
        revert_on_error ==> revertible,
    ensures
        settle(
            Medium::Vacant,
            PersistentView::created(
                name,
                format,
                storage,
                loaded,
                default,
                revertible,
                revert_on_error,
            ),
            Step::Perform(Request::CheckOccupied),
        ) == (
            Medium::Holds(default),
            settled_creation(
                name,
                format,
                storage,
                if loaded {
                    Some(default)
                } else {
                    None
                },
                default,
                revertible,
                revert_on_error,
            ),
            Ok::<(), PersistenceError>(()),
        ),
{
    reveal_with_fuel(run, 5);
}

/// Existing storage: creating a resource on a medium that holds a resource
/// leaves the medium as it is, and loads the stored resource if the resource
/// is to be loaded.
pub proof fn law_existing_storage<R>(
    name: Seq<char>,
    format: StorageFormat,
    storage: StorageView,
    loaded: bool,
    default: R,
    revertible: bool,
    revert_on_error: bool,
    stored: R,
)
    requires
        revert_on_error ==> revertible,
    ensures
        settle(
            Medium::Holds(stored),
            PersistentView::created(
                name,
                format,
                storage,
                loaded,
                default,
                revertible,
                revert_on_error,
            ),
            Step::Perform(Request::CheckOccupied),
        ) == (
            Medium::Holds(stored),
            settled_creation(
                name,
                format,
                storage,
                if loaded {
                    Some(stored)
                } else {
                    None
                },
                default,
                revertible,
                revert_on_error,
            ),
            Ok::<(), PersistenceError>(()),
        ),
{
    reveal_with_fuel(run, 5);
}

/// Unreadable storage on creation: when the stored content cannot be read
/// back because of a deserialization error, a loaded resource that reverts on
/// such errors stores its default and loads it; any other loaded resource
/// fails with the read error and stores nothing.
pub proof fn law_unreadable_on_creation<R>(
    name: Seq<char>,
    format: StorageFormat,
    storage: StorageView,
    default: R,
    revertible: bool,
    revert_on_error: bool,
    error: PersistenceError,
)
    requires
        revert_on_error ==> revertible,
    ensures
        ({
            let (medium, state, result) = settle(
                Medium::Garbled(error),
                PersistentView::created(
                    name,
                    format,
                    storage,
                    true,
                    default,
                    revertible,
                    revert_on_error,
                ),
                Step::Perform(Request::CheckOccupied),
            );
            if error.serde() && revert_on_error {
                &&& medium == Medium::Holds(default)
                &&& state == settled_creation(
                    name,
                    format,
                    storage,
                    Some(default),
                    default,
                    revertible,
                    revert_on_error,
                )
                &&& result == Ok::<(), PersistenceError>(())
            } else {
                &&& medium == Medium::<R>::Garbled(error)
                &&& state.resource is None
                &&& result == Err::<(), PersistenceError>(error)
            }
        }),
{
    reveal_with_fuel(run, 5);
}

/// Set: setting a resource stores it and keeps it loaded; nothing else changes.
pub proof fn law_set<R>(state: PersistentView<R>, medium: Medium<R>, resource: R)
    requires
        state.wf(),
        state.idle(),
    ensures
        ({
            let (started, step) = state.holding(Some(resource)).begin(
                Task::Saving { unload: false },
            );
            settle(medium, started, step) == (
                Medium::Holds(resource),
                state.holding(Some(resource)),
                Ok::<(), PersistenceError>(()),
            )
        }),
{
    reveal_with_fuel(run, 3);
}

/// Persist: persisting a loaded resource stores it; the resource is unchanged.
pub proof fn law_persist<R>(state: PersistentView<R>, medium: Medium<R>)
    requires
        state.wf(),
        state.idle(),
        state.resource is Some,
    ensures
        ({
            let (started, step) = state.begin(Task::Saving { unload: false });
            settle(medium, started, step) == (
                Medium::Holds(state.resource.unwrap()),
                state,
                Ok::<(), PersistenceError>(()),
            )
        }),
{
    reveal_with_fuel(run, 3);
}

/// Unload: unloading a loaded resource stores it, then drops it from memory.
pub proof fn law_unload<R>(state: PersistentView<R>, medium: Medium<R>)
    requires
        state.wf(),
        state.idle(),
        state.resource is Some,
    ensures
        ({
            let (started, step) = state.begin(Task::Saving { unload: true });
            settle(medium, started, step) == (
                Medium::Holds(state.resource.unwrap()),
                state.holding(None),
                Ok::<(), PersistenceError>(()),
            )
        }),
{
    reveal_with_fuel(run, 3);
}

/// Reload: reloading from a medium that holds a resource loads that
/// resource and leaves the medium as it is.
pub proof fn law_reload<R>(state: PersistentView<R>, stored: R)
    requires
        state.wf(),
        state.idle(),
    ensures
        ({
            let (started, step) = state.begin(Task::Loading);
            settle(Medium::Holds(stored), started, step) == (
                Medium::Holds(stored),
                state.holding(Some(stored)),
                Ok::<(), PersistenceError>(()),
            )
        }),
{
    reveal_with_fuel(run, 3);
}

/// Read after write: a reload after a set gives back the resource that was set.
pub proof fn law_reload_after_set<R>(state: PersistentView<R>, medium: Medium<R>, resource: R)
    requires
        state.wf(),
        state.idle(),
    ensures
        ({
            let (started, step) = state.holding(Some(resource)).begin(
                Task::Saving { unload: false },
            );
            let (medium1, state1, _) = settle(medium, started, step);
            let (reloading, step1) = state1.holding(None).begin(Task::Loading);
            let (medium2, state2, result2) = settle(medium1, reloading, step1);
            &&& medium2 == Medium::Holds(resource)
            &&& state2.resource == Some(resource)
            &&& result2 == Ok::<(), PersistenceError>(())
        }),
{
    law_set(state, medium, resource);
    let (started, step) = state.holding(Some(resource)).begin(Task::Saving { unload: false });
    let (medium1, state1, _) = settle(medium, started, step);
    law_reload(state1.holding(None), resource);
}

/// Unreadable storage on reload: when the stored content cannot be read back
/// because of a deserialization error and the resource reverts on such
/// errors, reloading stores the default and, if the resource was loaded,
/// loads the default. Otherwise reloading fails with the read error and
/// keeps the loaded resource as it was.
pub proof fn law_unreadable_on_reload<R>(state: PersistentView<R>, error: PersistenceError)
    requires
        state.wf(),
        state.idle(),
    ensures
        ({
            let (started, step) = state.begin(Task::Loading);
            let (medium, after, result) = settle(Medium::Garbled(error), started, step);
            if error.serde() && state.revert_on_error {
                &&& medium == Medium::Holds(state.default.unwrap())
                &&& after == state.holding(
                    if state.resource is Some {
                        state.default
                    } else {
                        None
                    },
                )
                &&& result == Ok::<(), PersistenceError>(())
            } else {
                &&& medium == Medium::<R>::Garbled(error)
                &&& after == state
                &&& result == Err::<(), PersistenceError>(error)
            }
        }),
{
    reveal_with_fuel(run, 4);
}

/// Revert: reverting stores the default and keeps the loaded status; a
/// loaded resource becomes the default.
pub proof fn law_revert_to_default<R>(state: PersistentView<R>, medium: Medium<R>)
    requires
        state.wf(),
        state.idle(),
        state.revertible,
    ensures
        ({
            let (started, step) = state.begin(Task::Reverting { copy: state.resource is Some });
            settle(medium, started, step) == (
                Medium::Holds(state.default.unwrap()),
                state.holding(
                    if state.resource is Some {
                        state.default
                    } else {
                        None
                    },
                ),
                Ok::<(), PersistenceError>(()),
            )
        }),
{
    reveal_with_fuel(run, 4);
}

/// Revert in memory: the resource becomes the default and the medium is untouched.
pub proof fn law_revert_to_default_in_memory<R>(state: PersistentView<R>, medium: Medium<R>)
    requires
        state.wf(),
        state.idle(),
        state.revertible,
    ensures
        ({
            let (started, step) = state.begin(Task::CopyingDefault);
            settle(medium, started, step) == (
                medium,
                state.holding(state.default),
                Ok::<(), PersistenceError>(()),
            )
        }),
{
    reveal_with_fuel(run, 3);
}


/// First run on an unwritable medium: when the default cannot be written,
/// creation fails with the write error, stores nothing and loads nothing.
pub proof fn law_first_run_unwritable<R>(
    name: Seq<char>,
    format: StorageFormat,
    storage: StorageView,
    loaded: bool,
    default: R,
    revertible: bool,
    revert_on_error: bool,
    error: PersistenceError,
)
    requires
        revert_on_error ==> revertible,
    ensures
        settle_with(
            Medium::Vacant,
            PersistentView::created(
                name,
                format,
                storage,
                loaded,
                default,
                revertible,
                revert_on_error,
            ),
            Step::Perform(Request::CheckOccupied),
            Faults { write: Some(error), copy: None },
        ) == (
            Medium::<R>::Vacant,
            settled_creation(name, format, storage, None, default, revertible, revert_on_error),
            Err::<(), PersistenceError>(error),
        ),
{
    reveal_with_fuel(run_with, 4);
}

/// First run when the default cannot be copied: a loaded resource stores its
/// default, then fails with the copy error and loads nothing.
pub proof fn law_first_run_uncopyable<R>(
    name: Seq<char>,
    format: StorageFormat,
    storage: StorageView,
    default: R,
    revertible: bool,
    revert_on_error: bool,
    error: PersistenceError,
)
    requires
        revert_on_error ==> revertible,
    ensures
        settle_with(
            Medium::Vacant,
            PersistentView::created(
                name,
                format,
                storage,
                true,
                default,
                revertible,
                revert_on_error,
            ),
            Step::Perform(Request::CheckOccupied),
            Faults { write: None, copy: Some(error) },
        ) == (
            Medium::Holds(default),
            settled_creation(name, format, storage, None, default, revertible, revert_on_error),
            Err::<(), PersistenceError>(error),
        ),
{
    reveal_with_fuel(run_with, 5);
}

/// Set on an unwritable medium: setting fails with the write error and stores
/// nothing, but the new resource stays loaded.
pub proof fn law_set_unwritable<R>(
    state: PersistentView<R>,
    medium: Medium<R>,
    resource: R,
    error: PersistenceError,
)
    requires
        state.wf(),
        state.idle(),
    ensures
        ({
            let (started, step) = state.holding(Some(resource)).begin(
                Task::Saving { unload: false },
            );
            settle_with(medium, started, step, Faults { write: Some(error), copy: None }) == (
                medium,
                state.holding(Some(resource)),
                Err::<(), PersistenceError>(error),
            )
        }),
{
    reveal_with_fuel(run_with, 3);
}

/// Revert on an unwritable medium: reverting fails with the write error and
/// changes nothing, neither the medium nor the resource.
pub proof fn law_revert_to_default_unwritable<R>(
    state: PersistentView<R>,
    medium: Medium<R>,
    error: PersistenceError,
)
    requires
        state.wf(),
        state.idle(),
        state.revertible,
    ensures
        ({
            let (started, step) = state.begin(Task::Reverting { copy: state.resource is Some });
            settle_with(medium, started, step, Faults { write: Some(error), copy: None }) == (
                medium,
                state,
                Err::<(), PersistenceError>(error),
            )
        }),
{
    reveal_with_fuel(run_with, 3);
}

/// Revert when the default cannot be copied: the default is stored, and a
/// loaded resource fails with the copy error and keeps its value.
pub proof fn law_revert_to_default_uncopyable<R>(
    state: PersistentView<R>,
    medium: Medium<R>,
    error: PersistenceError,
)
    requires
        state.wf(),
        state.idle(),
        state.revertible,
        state.resource is Some,
    ensures
        ({
            let (started, step) = state.begin(Task::Reverting { copy: true });
            settle_with(medium, started, step, Faults { write: None, copy: Some(error) }) == (
                Medium::Holds(state.default.unwrap()),
                state,
                Err::<(), PersistenceError>(error),
            )
        }),
{
    reveal_with_fuel(run_with, 4);
}

/// Revert in memory when the default cannot be copied: the revert fails with
/// the copy error and changes nothing.
pub proof fn law_revert_to_default_in_memory_uncopyable<R>(
    state: PersistentView<R>,
    medium: Medium<R>,
    error: PersistenceError,
)
    requires
        state.wf(),
        state.idle(),
        state.revertible,
    ensures
        ({
            let (started, step) = state.begin(Task::CopyingDefault);
            settle_with(medium, started, step, Faults { write: None, copy: Some(error) }) == (
                medium,
                state,
                Err::<(), PersistenceError>(error),
            )
        }),
{
    reveal_with_fuel(run_with, 3);
}

} // verus!
