//! A persistent resource.

use crate::builder::{BuilderView, PersistentBuilder};
use crate::error::PersistenceError;
use crate::format::StorageFormat;
use crate::storage::{Storage, StorageView};
use vstd::prelude::*;

verus! {

/// Work on the storage medium that a persistent resource asks its driver for.
#[derive(Clone, Copy, Debug, PartialEq, Eq, Structural)]
pub enum Request {
    /// Tell whether the storage already holds something.
    CheckOccupied,
    /// Prepare the storage (create the parent directory of a file).
    InitializeStorage,
    /// Serialize the default resource in the storage format and write it to the storage.
    WriteDefault,
    /// Serialize the loaded resource in the storage format and write it to the storage.
    WriteResource,
    /// Read the storage and deserialize the resource in the storage format.
    ReadResource,
    /// Serialize the default resource and deserialize it back: a copy of the
    /// default that shares nothing with it.
    CopyDefault,
}

/// What came of a [`Request`].
pub enum Outcome<R> {
    /// Answers [`Request::CheckOccupied`].
    Occupied(bool),
    /// Answers [`Request::InitializeStorage`].
    Initialized(Result<(), PersistenceError>),
    /// Answers [`Request::WriteDefault`] and [`Request::WriteResource`].
    Written(Result<(), PersistenceError>),
    /// Answers [`Request::ReadResource`].
    Read(Result<R, PersistenceError>),
    /// Answers [`Request::CopyDefault`].
    Copied(Result<R, PersistenceError>),
}

/// What a persistent resource wants next: work on the storage, or nothing more
/// because the operation is over, with its result.
#[derive(Debug, PartialEq, Eq)]
pub enum Step {
    Perform(Request),
    Done(Result<(), PersistenceError>),
}

/// The operation that a persistent resource is in the middle of, and where.
#[derive(Debug, PartialEq, Eq)]
pub enum Task {
    /// No operation is under way.
    Idle,
    /// Creation: waiting to learn whether the storage is occupied.
    Probing { loaded: bool },
    /// Creation on an empty storage: waiting for the storage to be prepared.
    Preparing { loaded: bool },
    /// Creation on an empty storage: waiting for the default to be written.
    SavingDefault { loaded: bool },
    /// Waiting for a copy of the default, which becomes the loaded resource.
    CopyingDefault,
    /// Creation or reload: waiting for the stored resource.
    Loading,
    /// Waiting for the loaded resource to be written; `unload` drops it afterwards.
    Saving { unload: bool },
    /// Reverting to default: waiting for the default to be written; `copy`
    /// loads a copy of it afterwards.
    Reverting { copy: bool },
    /// Recovering from a deserialization error by reverting to default:
    /// waiting for the default to be written. Any failure reports `error`.
    Recovering { error: PersistenceError, copy: bool },
    /// Recovering from a deserialization error: waiting for a copy of the
    /// default. Any failure reports `error`.
    RecoveringCopy { error: PersistenceError },
}

/// The request that a task waits for, if any.
pub open spec fn awaited(task: Task) -> Option<Request> {
    match task {
        Task::Idle => None,
        Task::Probing { .. } => Some(Request::CheckOccupied),
        Task::Preparing { .. } => Some(Request::InitializeStorage),
        Task::SavingDefault { .. } => Some(Request::WriteDefault),
        Task::CopyingDefault => Some(Request::CopyDefault),
        Task::Loading => Some(Request::ReadResource),
        Task::Saving { .. } => Some(Request::WriteResource),
        Task::Reverting { .. } => Some(Request::WriteDefault),
        Task::Recovering { .. } => Some(Request::WriteDefault),
        Task::RecoveringCopy { .. } => Some(Request::CopyDefault),
    }
}

/// Whether an outcome is of the kind that answers a request.
pub open spec fn answers<R>(outcome: Outcome<R>, request: Request) -> bool {
    match outcome {
        Outcome::Occupied(_) => request == Request::CheckOccupied,
        Outcome::Initialized(_) => request == Request::InitializeStorage,
        Outcome::Written(_) => request == Request::WriteDefault || request
            == Request::WriteResource,
        Outcome::Read(_) => request == Request::ReadResource,
        Outcome::Copied(_) => request == Request::CopyDefault,
    }
}

/// A persistent resource.
///
/// A persistent resource is a resource that is kept synchronized with a
/// storage. It has a name for logging, a storage format, a storage to be
/// saved to and loaded from, and a default value for the first time it is
/// created.
///
/// It does no work on the storage itself: each operation asks its driver for
/// work through a [`Step`], and goes on when [`Persistent::resume`] hands
/// back the [`Outcome`]. An operation is over when a step is `Done`.
#[derive(Debug)]
pub struct Persistent<R> {
    name: String,
    format: StorageFormat,
    storage: Storage,
    resource: Option<R>,
    default: Option<R>,
    revert_to_default_on_deserialization_errors: bool,
    revertible: bool,
    creating: bool,
    task: Task,
}

/// The state of a persistent resource.
pub struct PersistentView<R> {
    pub name: Seq<char>,
    pub format: StorageFormat,
    pub storage: StorageView,
    /// The loaded resource, if any.
    pub resource: Option<R>,
    /// The default resource, kept while creating and afterwards if revertible.
    pub default: Option<R>,
    pub revert_on_error: bool,
    pub revertible: bool,
    /// Whether creation is still under way.
    pub creating: bool,
    pub task: Task,
}

impl<R> View for Persistent<R> {
    type V = PersistentView<R>;

    closed spec fn view(&self) -> PersistentView<R> {
        PersistentView {
            name: self.name@,
            format: self.format,
            storage: self.storage@,
            resource: self.resource,
            default: self.default,
            revert_on_error: self.revert_to_default_on_deserialization_errors,
            revertible: self.revertible,
            creating: self.creating,
            task: self.task,
        }
    }
}

impl<R> PersistentView<R> {
    /// The invariant of a persistent resource.
    pub open spec fn wf(self) -> bool {
        &&& self.creating ==> self.default is Some && !(self.task is Idle)
        &&& !self.creating ==> (self.default is Some <==> self.revertible)
        &&& self.revert_on_error ==> self.revertible
        &&& (self.task is Probing || self.task is Preparing || self.task is SavingDefault)
            ==> self.creating
        &&& self.task is Saving ==> self.resource is Some
        &&& (self.task is CopyingDefault || self.task is Reverting || self.task is Recovering
            || self.task is RecoveringCopy) ==> self.default is Some
    }

    /// Whether no operation is under way.
    pub open spec fn idle(self) -> bool {
        self.task is Idle
    }

    /// The state right after creation starts.
    pub open spec fn created(
        name: Seq<char>,
        format: StorageFormat,
        storage: StorageView,
        loaded: bool,
        default: R,
        revertible: bool,
        revert_on_error: bool,
    ) -> Self {
        PersistentView {
            name,
            format,
            storage,
            resource: None,
            default: Some(default),
            revert_on_error,
            revertible,
            creating: true,
            task: Task::Probing { loaded },
        }
    }

    /// Starts `task`: the state with that task, and its request.
    pub open spec fn begin(self, task: Task) -> (Self, Step) {
        (PersistentView { task, ..self }, Step::Perform(awaited(task).unwrap()))
    }

    /// Ends the operation under way with `result`. A creation that is over
    /// keeps the default only if the resource is revertible.
    pub open spec fn finish(self, result: Result<(), PersistenceError>) -> (Self, Step) {
        (
            PersistentView {
                task: Task::Idle,
                creating: false,
                default: if self.revertible {
                    self.default
                } else {
                    None
                },
                ..self
            },
            Step::Done(result),
        )
    }

    /// The state with `resource` loaded (or nothing, for `None`).
    pub open spec fn holding(self, resource: Option<R>) -> Self {
        PersistentView { resource, ..self }
    }

    /// The next state and step when `outcome` answers the request under way.
    pub open spec fn resumed(self, outcome: Outcome<R>) -> (Self, Step) {
        match self.task {
            Task::Probing { loaded } => match outcome {
                Outcome::Occupied(false) => self.begin(Task::Preparing { loaded }),
                _ => if loaded {
                    self.begin(Task::Loading)
                } else {
                    self.finish(Ok(()))
                },
            },
            Task::Preparing { loaded } => match outcome {
                Outcome::Initialized(Err(e)) => self.finish(Err(e)),
                _ => self.begin(Task::SavingDefault { loaded }),
            },
            Task::SavingDefault { loaded } => match outcome {
                Outcome::Written(Err(e)) => self.finish(Err(e)),
                _ => if loaded {
                    self.begin(Task::CopyingDefault)
                } else {
                    self.finish(Ok(()))
                },
            },
            Task::CopyingDefault => match outcome {
                Outcome::Copied(Ok(r)) => self.holding(Some(r)).finish(Ok(())),
                Outcome::Copied(Err(e)) => self.finish(Err(e)),
                _ => self.finish(Ok(())),
            },
            Task::Loading => match outcome {
                Outcome::Read(Ok(r)) => self.holding(Some(r)).finish(Ok(())),
                Outcome::Read(Err(e)) => if e.serde() && self.revert_on_error {
                    self.begin(
                        Task::Recovering {
                            error: e,
                            copy: self.creating || self.resource is Some,
                        },
                    )
                } else {
                    self.finish(Err(e))
                },
                _ => self.finish(Ok(())),
            },
            Task::Saving { unload } => match outcome {
                Outcome::Written(Err(e)) => self.finish(Err(e)),
                _ => if unload {
                    self.holding(None).finish(Ok(()))
                } else {
                    self.finish(Ok(()))
                },
            },
            Task::Reverting { copy } => match outcome {
                Outcome::Written(Err(e)) => self.finish(Err(e)),
                _ => if copy {
                    self.begin(Task::CopyingDefault)
                } else {
                    self.finish(Ok(()))
                },
            },
            Task::Recovering { error, copy } => match outcome {
                Outcome::Written(Err(_)) => self.finish(Err(error)),
                _ => if copy {
                    self.begin(Task::RecoveringCopy { error })
                } else {
                    self.finish(Ok(()))
                },
            },
            Task::RecoveringCopy { error } => match outcome {
                Outcome::Copied(Ok(r)) => self.holding(Some(r)).finish(Ok(())),
                _ => self.finish(Err(error)),
            },
            Task::Idle => (self, Step::Done(Ok(()))),
        }
    }
}

/// The request that a task waits for.
fn request_of(task: &Task) -> (r: Request)
    requires
        !(task is Idle),
    ensures
        awaited(*task) == Some(r),
{
    match task {
        Task::Probing { .. } => Request::CheckOccupied,
        Task::Preparing { .. } => Request::InitializeStorage,
        Task::SavingDefault { .. } => Request::WriteDefault,
        Task::CopyingDefault => Request::CopyDefault,
        Task::Loading => Request::ReadResource,
        Task::Saving { .. } => Request::WriteResource,
        Task::Reverting { .. } => Request::WriteDefault,
        Task::Recovering { .. } => Request::WriteDefault,
        Task::RecoveringCopy { .. } => Request::CopyDefault,
        Task::Idle => Request::CheckOccupied,
    }
}

impl<R> Persistent<R> {
    /// Starts `task`.
    fn begin(&mut self, task: Task) -> (step: Step)
        requires
            !(task is Idle),
        ensures
            (final(self)@, step) == old(self)@.begin(task),
    {
        let request = request_of(&task);
        self.task = task;
        Step::Perform(request)
    }

    /// Ends the operation under way with `result`.
    fn finish(&mut self, result: Result<(), PersistenceError>) -> (step: Step)
        ensures
            (final(self)@, step) == old(self)@.finish(result),
    {
        self.task = Task::Idle;
        self.creating = false;
        if !self.revertible {
            self.default = None;
        }
        Step::Done(result)
    }

    /// Goes on with the operation under way, given the outcome of the work it
    /// asked for.
    pub fn resume(&mut self, outcome: Outcome<R>) -> (step: Step)
        requires
            old(self)@.wf(),
            !old(self)@.idle(),
            answers(outcome, awaited(old(self)@.task).unwrap()),
        ensures
            final(self)@.wf(),
            (final(self)@, step) == old(self)@.resumed(outcome),
    {
        let mut task = Task::Idle;
        std::mem::swap(&mut task, &mut self.task);
        proof {
            assert(task == old(self)@.task);
        }
        match task {
            Task::Probing { loaded } => match outcome {
                Outcome::Occupied(false) => self.begin(Task::Preparing { loaded }),
                _ => if loaded {
                    self.begin(Task::Loading)
                } else {
                    self.finish(Ok(()))
                },
            },
            Task::Preparing { loaded } => match outcome {
                Outcome::Initialized(Err(e)) => self.finish(Err(e)),
                _ => self.begin(Task::SavingDefault { loaded }),
            },
            Task::SavingDefault { loaded } => match outcome {
                Outcome::Written(Err(e)) => self.finish(Err(e)),
                _ => if loaded {
                    self.begin(Task::CopyingDefault)
                } else {
                    self.finish(Ok(()))
                },
            },
            Task::CopyingDefault => match outcome {
                Outcome::Copied(Ok(r)) => {
                    self.resource = Some(r);
                    self.finish(Ok(()))
                },
                Outcome::Copied(Err(e)) => self.finish(Err(e)),
                _ => self.finish(Ok(())),
            },
            Task::Loading => match outcome {
                Outcome::Read(Ok(r)) => {
                    self.resource = Some(r);
                    self.finish(Ok(()))
                },
                Outcome::Read(Err(e)) => {
                    if e.is_serde() && self.revert_to_default_on_deserialization_errors {
                        let copy = self.creating || self.resource.is_some();
                        self.begin(Task::Recovering { error: e, copy })
                    } else {
                        self.finish(Err(e))
                    }
                },
                _ => self.finish(Ok(())),
            },
            Task::Saving { unload } => match outcome {
                Outcome::Written(Err(e)) => self.finish(Err(e)),
                _ => if unload {
                    self.resource = None;
                    self.finish(Ok(()))
                } else {
                    self.finish(Ok(()))
                },
            },
            Task::Reverting { copy } => match outcome {
                Outcome::Written(Err(e)) => self.finish(Err(e)),
                _ => if copy {
                    self.begin(Task::CopyingDefault)
                } else {
                    self.finish(Ok(()))
                },
            },
            Task::Recovering { error, copy } => match outcome {
                Outcome::Written(Err(_)) => self.finish(Err(error)),
                _ => if copy {
                    self.begin(Task::RecoveringCopy { error })
                } else {
                    self.finish(Ok(()))
                },
            },
            Task::RecoveringCopy { error } => match outcome {
                Outcome::Copied(Ok(r)) => {
                    self.resource = Some(r);
                    self.finish(Ok(()))
                },
                _ => self.finish(Err(error)),
            },
            Task::Idle => Step::Done(Ok(())),
        }
    }
}

impl<R> Persistent<R> {
    /// Creates a persistent resource builder.
    pub fn builder() -> (r: PersistentBuilder<R>)
        ensures
            r@ == (BuilderView::<R> {
                name: None,
                format: None,
                path: None,
                default: None,
                loaded: true,
                revertible: false,
                revert_on_error: false,
            }),
    {
        PersistentBuilder::empty()
    }

    /// Creates a persistent resource.
    ///
    /// Creation asks first whether the storage is occupied. On a first run
    /// (an empty storage) it prepares the storage and writes the default to
    /// it, then, if `loaded`, loads a copy of the default. Otherwise, if
    /// `loaded`, it loads the stored resource; a deserialization error there
    /// reverts the storage to the default when
    /// `revert_to_default_on_deserialization_errors` is set.
    pub fn new(
        name: &str,
        format: StorageFormat,
        storage: Storage,
        loaded: bool,
        default: R,
        revertible: bool,
        revert_to_default_on_deserialization_errors: bool,
    ) -> (r: (Persistent<R>, Step))
        requires
            revert_to_default_on_deserialization_errors ==> revertible,
        ensures
            r.0@ == PersistentView::created(
                name@,
                format,
                storage@,
                loaded,
                default,
                revertible,
                revert_to_default_on_deserialization_errors,
            ),
            r.0@.wf(),
            r.1 == Step::Perform(Request::CheckOccupied),
    {
        let persistent = Persistent {
            name: String::from_str(name),
            format,
            storage,
            resource: None,
            default: Some(default),
            revert_to_default_on_deserialization_errors,
            revertible,
            creating: true,
            task: Task::Probing { loaded },
        };
        (persistent, Step::Perform(Request::CheckOccupied))
    }

    /// Gets the request that the operation under way waits for, if any.
    pub fn awaiting(&self) -> (r: Option<Request>)
        ensures
            r == awaited(self@.task),
    {
        match &self.task {
            Task::Idle => None,
            task => Some(request_of(task)),
        }
    }

    /// Gets the resource that the awaited request writes or copies: the
    /// loaded resource for [`Request::WriteResource`], the default for
    /// [`Request::WriteDefault`] and [`Request::CopyDefault`].
    pub fn subject(&self) -> (r: &R)
        requires
            self@.wf(),
            awaited(self@.task) == Some(Request::WriteResource) || awaited(self@.task) == Some(
                Request::WriteDefault,
            ) || awaited(self@.task) == Some(Request::CopyDefault),
        ensures
            awaited(self@.task) == Some(Request::WriteResource) ==> *r == self@.resource.unwrap(),
            awaited(self@.task) != Some(Request::WriteResource) ==> *r == self@.default.unwrap(),
    {
        match &self.task {
            Task::Saving { .. } => match &self.resource {
                Some(resource) => resource,
                None => self.default.as_ref().unwrap(),
            },
            _ => self.default.as_ref().unwrap(),
        }
    }

    /// Gets the name of the resource.
    pub fn name(&self) -> (r: &str)
        ensures
            r@ == self@.name,
    {
        self.name.as_str()
    }

    /// Gets the storage format of the resource.
    pub fn format(&self) -> (r: StorageFormat)
        ensures
            r == self@.format,
    {
        self.format
    }

    /// Gets the storage of the resource.
    pub fn storage(&self) -> (r: &Storage)
        ensures
            r@ == self@.storage,
    {
        &self.storage
    }

    /// Gets if the resource is revertible.
    pub fn is_revertible(&self) -> (r: bool)
        ensures
            r == self@.revertible,
    {
        self.revertible
    }

    /// Gets if the resource is loaded.
    pub fn is_loaded(&self) -> (r: bool)
        ensures
            r == self@.resource is Some,
    {
        self.resource.is_some()
    }

    /// Gets if the resource is unloaded.
    pub fn is_unloaded(&self) -> (r: bool)
        ensures
            r == self@.resource is None,
    {
        self.resource.is_none()
    }

    /// Gets the resource.
    pub fn get(&self) -> (r: &R)
        requires
            self@.resource is Some,
        ensures
            *r == self@.resource.unwrap(),
    {
        self.resource.as_ref().unwrap()
    }

    /// Gets the resource mutably.
    pub fn get_mut(&mut self) -> (r: &mut R)
        requires
            old(self)@.resource is Some,
        ensures
            *r == old(self)@.resource.unwrap(),
            final(self)@ == old(self)@.holding(Some(*final(r))),
    {
        self.resource.as_mut().unwrap()
    }

    /// Tries to get the resource.
    pub fn try_get(&self) -> (r: Option<&R>)
        ensures
            match self@.resource {
                Some(resource) => r matches Some(x) && *x == resource,
                None => r is None,
            },
    {
        self.resource.as_ref()
    }

    /// Tries to get the resource mutably.
    pub fn try_get_mut(&mut self) -> (r: Option<&mut R>)
        ensures
            match old(self)@.resource {
                Some(resource) => r is Some && *r.unwrap() == resource && final(self)@
                    == old(self)@.holding(Some(*final(r.unwrap()))),
                None => r is None && final(self)@ == old(self)@,
            },
    {
        self.resource.as_mut()
    }

    /// Sets the resource, then writes it to the storage.
    ///
    /// The new resource stays loaded whether the write succeeds or not.
    pub fn set(&mut self, new_resource: R) -> (step: Step)
        requires
            old(self)@.wf(),
            old(self)@.idle(),
        ensures
            final(self)@.wf(),
            (final(self)@, step) == old(self)@.holding(Some(new_resource)).begin(
                Task::Saving { unload: false },
            ),
    {
        self.resource = Some(new_resource);
        self.begin(Task::Saving { unload: false })
    }

    /// Updates the loaded resource with `updater`, then writes it to the storage.
    ///
    /// The updated resource stays loaded whether the write succeeds or not.
    pub fn update<F: Fn(&mut R)>(&mut self, updater: F) -> (step: Step)
        requires
            old(self)@.wf(),
            old(self)@.idle(),
            old(self)@.resource is Some,
            forall|r: &mut R| call_requires(updater, (r,)),
        ensures
            final(self)@.wf(),
            final(self)@.resource is Some,
            exists|r: &mut R|
                *r == old(self)@.resource.unwrap() && *final(r) == final(self)@.resource.unwrap()
                    && call_ensures(updater, (r,), ()),
            (final(self)@, step) == old(self)@.holding(final(self)@.resource).begin(
                Task::Saving { unload: false },
            ),
    {
        match &mut self.resource {
            Some(resource) => updater(resource),
            None => {},
        }
        self.begin(Task::Saving { unload: false })
    }

    /// Writes the loaded resource to the storage.
    pub fn persist(&mut self) -> (step: Step)
        requires
            old(self)@.wf(),
            old(self)@.idle(),
            old(self)@.resource is Some,
        ensures
            final(self)@.wf(),
            (final(self)@, step) == old(self)@.begin(Task::Saving { unload: false }),
    {
        self.begin(Task::Saving { unload: false })
    }

    /// Unloads the resource from memory, after writing it to the storage.
    ///
    /// If the write fails, the resource stays loaded.
    pub fn unload(&mut self) -> (step: Step)
        requires
            old(self)@.wf(),
            old(self)@.idle(),
            old(self)@.resource is Some,
        ensures
            final(self)@.wf(),
            (final(self)@, step) == old(self)@.begin(Task::Saving { unload: true }),
    {
        self.begin(Task::Saving { unload: true })
    }

    /// Unloads the resource from memory immediately, without writing it to the storage.
    pub fn unload_without_persisting(&mut self)
        requires
            old(self)@.wf(),
            old(self)@.idle(),
        ensures
            final(self)@.wf(),
            final(self)@ == old(self)@.holding(None),
    {
        self.resource = None;
    }

    /// Reloads the resource from the storage.
    ///
    /// If reloading fails, the loaded resource is kept as it is. A
    /// deserialization error reverts the resource to its default instead
    /// when the resource reverts on such errors.
    pub fn reload(&mut self) -> (step: Step)
        requires
            old(self)@.wf(),
            old(self)@.idle(),
        ensures
            final(self)@.wf(),
            (final(self)@, step) == old(self)@.begin(Task::Loading),
    {
        self.begin(Task::Loading)
    }

    /// Reverts the resource to its default value: writes the default to the
    /// storage, then, if the resource is loaded, loads a copy of it.
    pub fn revert_to_default(&mut self) -> (step: Step)
        requires
            old(self)@.wf(),
            old(self)@.idle(),
            old(self)@.revertible,
        ensures
            final(self)@.wf(),
            (final(self)@, step) == old(self)@.begin(
                Task::Reverting { copy: old(self)@.resource is Some },
            ),
    {
        let copy = self.resource.is_some();
        self.begin(Task::Reverting { copy })
    }

    /// Reverts the resource to its default value only in memory, not in the storage.
    pub fn revert_to_default_in_memory(&mut self) -> (step: Step)
        requires
            old(self)@.wf(),
            old(self)@.idle(),
            old(self)@.revertible,
        ensures
            final(self)@.wf(),
            (final(self)@, step) == old(self)@.begin(Task::CopyingDefault),
    {
        self.begin(Task::CopyingDefault)
    }
}


/// Failed write after set: when writing a newly set resource fails, the
/// operation reports the failure and the new resource stays loaded.
pub proof fn law_set_keeps_resource_on_failure<R>(
    state: PersistentView<R>,
    resource: R,
    error: PersistenceError,
)
    requires
        state.wf(),
        state.idle(),
    ensures
        ({
            let (started, step) = state.holding(Some(resource)).begin(
                Task::Saving { unload: false },
            );
            &&& step == Step::Perform(Request::WriteResource)
            &&& started.resumed(Outcome::Written(Err(error))) == (
                state.holding(Some(resource)),
                Step::Done(Err(error)),
            )
        }),
{
}

/// Failed write before unload: when writing the resource fails, unloading
/// reports the failure and the resource stays loaded.
pub proof fn law_unload_keeps_resource_on_failure<R>(
    state: PersistentView<R>,
    error: PersistenceError,
)
    requires
        state.wf(),
        state.idle(),
        state.resource is Some,
    ensures
        ({
            let (started, step) = state.begin(Task::Saving { unload: true });
            &&& step == Step::Perform(Request::WriteResource)
            &&& started.resumed(Outcome::Written(Err(error))) == (state, Step::Done(Err(error)))
        }),
{
}

/// Failed reload: if reloading fails with an error that does not trigger a
/// revert (a storage error, or any error for a resource that does not revert
/// on deserialization errors), the loaded resource is kept untouched and the
/// error is reported.
pub proof fn law_reload_keeps_resource_on_failure<R>(
    state: PersistentView<R>,
    error: PersistenceError,
)
    requires
        state.wf(),
        state.idle(),
        !(error.serde() && state.revert_on_error),
    ensures
        ({
            let (started, step) = state.begin(Task::Loading);
            &&& step == Step::Perform(Request::ReadResource)
            &&& started.resumed(Outcome::Read(Err(error))) == (state, Step::Done(Err(error)))
        }),
{
}

/// Failed recovery: when reverting after a deserialization error fails at
/// any point, the deserialization error is what gets reported.
pub proof fn law_recovery_reports_read_error<R>(
    state: PersistentView<R>,
    error: PersistenceError,
    later: PersistenceError,
)
    requires
        state.wf(),
        state.idle(),
        error.serde(),
        state.revert_on_error,
    ensures
        ({
            let (started, _) = state.begin(Task::Loading);
            let (recovering, step) = started.resumed(Outcome::Read(Err(error)));
            let (failed_write, write_step) = recovering.resumed(Outcome::Written(Err(later)));
            let (copying, copy_step) = recovering.resumed(Outcome::Written(Ok(())));
            &&& step == Step::Perform(Request::WriteDefault)
            &&& write_step == Step::Done(Err(error))
            &&& failed_write == state
            &&& (state.resource is Some ==> copy_step == Step::Perform(Request::CopyDefault)
                && copying.resumed(Outcome::Copied(Err(later))).1 == Step::Done(Err(error)))
        }),
{
}


/// Revertibility is kept: no step of any operation changes whether the
/// resource is revertible, and once creation is over a resource keeps its
/// default exactly when it is revertible.
pub proof fn law_revertible_is_kept<R>(
    state: PersistentView<R>,
    outcome: Outcome<R>,
    task: Task,
    resource: Option<R>,
)
    requires
        state.wf(),
    ensures
        state.resumed(outcome).0.revertible == state.revertible,
        state.begin(task).0.revertible == state.revertible,
        state.holding(resource).revertible == state.revertible,
        !state.creating ==> (state.default is Some <==> state.revertible),
{
}


/// Failures end operations: when the work that an operation asked for fails
/// (preparing the storage, writing, copying the default, or reading with an
/// error that does not trigger a revert), the operation ends at once with an
/// error and leaves the loaded resource as it was; outside creation the whole
/// state is as it was before the operation. The error is the failure itself,
/// except while recovering from a deserialization error, when it is that
/// deserialization error.
pub proof fn law_failures_end_operations<R>(
    state: PersistentView<R>,
    outcome: Outcome<R>,
    error: PersistenceError,
)
    requires
        state.wf(),
        !state.idle(),
        answers(outcome, awaited(state.task).unwrap()),
        outcome == Outcome::<R>::Initialized(Err(error)) || outcome == Outcome::<R>::Written(
            Err(error),
        ) || outcome == Outcome::<R>::Copied(Err(error)) || (outcome == Outcome::<R>::Read(
            Err(error),
        ) && !(error.serde() && state.revert_on_error)),
    ensures
        ({
            let (after, step) = state.resumed(outcome);
            &&& step == Step::Done(
                Err(
                    match state.task {
                        Task::Recovering { error: first, .. } => first,
                        Task::RecoveringCopy { error: first } => first,
                        _ => error,
                    },
                ),
            )
            &&& after.idle()
            &&& !after.creating
            &&& after.resource == state.resource
            &&& !state.creating ==> after == PersistentView { task: Task::Idle, ..state }
        }),
{
}

} // verus!
