//! A builder for a persistent resource.

use crate::format::StorageFormat;
use crate::persistent::{Persistent, PersistentView, Request, Step};
use crate::storage::{browser_storage, Storage, StorageView};
use vstd::prelude::*;
use vstd::string::*;

verus! {

/// A builder for a persistent resource.
pub struct PersistentBuilder<R> {
    name: Option<String>,
    format: Option<StorageFormat>,
    path: Option<String>,
    default: Option<R>,
    loaded: bool,
    revertible: bool,
    revert_to_default_on_deserialization_errors: bool,
}

/// A setting that a builder needs before it can build.
#[derive(Clone, Copy, Debug, PartialEq, Eq, Structural)]
pub enum Setting {
    Name,
    Format,
    Path,
    Default,
}

/// The settings of a builder.
pub struct BuilderView<R> {
    pub name: Option<Seq<char>>,
    pub format: Option<StorageFormat>,
    pub path: Option<Seq<char>>,
    pub default: Option<R>,
    pub loaded: bool,
    pub revertible: bool,
    pub revert_on_error: bool,
}

impl<R> View for PersistentBuilder<R> {
    type V = BuilderView<R>;

    closed spec fn view(&self) -> BuilderView<R> {
        BuilderView {
            name: match self.name {
                Some(name) => Some(name@),
                None => None,
            },
            format: self.format,
            path: match self.path {
                Some(path) => Some(path@),
                None => None,
            },
            default: self.default,
            loaded: self.loaded,
            revertible: self.revertible,
            revert_on_error: self.revert_to_default_on_deserialization_errors,
        }
    }
}

impl<R> PersistentBuilder<R> {
    /// A builder with nothing set: loaded, not revertible.
    pub(crate) fn empty() -> (r: PersistentBuilder<R>)
        ensures
            r@ == (BuilderView::<R> {
                name: None,
                format: None,
                path: None,
                default: None,
                loaded: true,
                revertible: false,
                revert_on_error: false,
            }),
    {
        PersistentBuilder {
            name: None,
            format: None,
            path: None,
            default: None,
            loaded: true,
            revertible: false,
            revert_to_default_on_deserialization_errors: false,
        }
    }

    /// Sets the name of the resource.
    pub fn name(self, name: &str) -> (r: PersistentBuilder<R>)
        ensures
            r@ == (BuilderView { name: Some(name@), ..self@ }),
    {
        PersistentBuilder { name: Some(String::from_str(name)), ..self }
    }

    /// Sets the storage format of the resource.
    pub fn format(self, format: StorageFormat) -> (r: PersistentBuilder<R>)
        ensures
            r@ == (BuilderView { format: Some(format), ..self@ }),
    {
        PersistentBuilder { format: Some(format), ..self }
    }

    /// Sets the path of the resource.
    pub fn path(self, path: &str) -> (r: PersistentBuilder<R>)
        ensures
            r@ == (BuilderView { path: Some(path@), ..self@ }),
    {
        PersistentBuilder { path: Some(String::from_str(path)), ..self }
    }

    /// Sets the default value of the resource.
    pub fn default(self, resource: R) -> (r: PersistentBuilder<R>)
        ensures
            r@ == (BuilderView { default: Some(resource), ..self@ }),
    {
        PersistentBuilder { default: Some(resource), ..self }
    }

    /// Sets the initial loaded status of the resource.
    pub fn loaded(self, loaded: bool) -> (r: PersistentBuilder<R>)
        ensures
            r@ == (BuilderView { loaded, ..self@ }),
    {
        PersistentBuilder { loaded, ..self }
    }

    /// Sets the initial unloaded status of the resource.
    pub fn unloaded(self, unloaded: bool) -> (r: PersistentBuilder<R>)
        ensures
            r@ == (BuilderView { loaded: !unloaded, ..self@ }),
    {
        PersistentBuilder { loaded: !unloaded, ..self }
    }

    /// Sets whether the resource keeps its default, to revert to it later.
    pub fn revertible(self, revertible: bool) -> (r: PersistentBuilder<R>)
        ensures
            r@ == (BuilderView { revertible, ..self@ }),
    {
        PersistentBuilder { revertible, ..self }
    }

    /// Sets whether a deserialization error while loading reverts the
    /// resource to its default.
    pub fn revert_to_default_on_deserialization_errors(self, revert: bool) -> (r:
        PersistentBuilder<R>)
        ensures
            r@ == (BuilderView { revert_on_error: revert, ..self@ }),
    {
        PersistentBuilder { revert_to_default_on_deserialization_errors: revert, ..self }
    }

    /// Gets the first setting, in the order name, format, path, default,
    /// that is not set yet.
    pub fn missing_setting(&self) -> (r: Option<Setting>)
        ensures
            r == (if self@.name is None {
                Some(Setting::Name)
            } else if self@.format is None {
                Some(Setting::Format)
            } else if self@.path is None {
                Some(Setting::Path)
            } else if self@.default is None {
                Some(Setting::Default)
            } else {
                None
            }),
    {
        if self.name.is_none() {
            Some(Setting::Name)
        } else if self.format.is_none() {
            Some(Setting::Format)
        } else if self.path.is_none() {
            Some(Setting::Path)
        } else if self.default.is_none() {
            Some(Setting::Default)
        } else {
            None
        }
    }

    /// Gets if the settings agree: a resource that reverts to its default on
    /// deserialization errors must be revertible.
    pub fn is_consistent(&self) -> (r: bool)
        ensures
            r == (self@.revert_on_error ==> self@.revertible),
    {
        !self.revert_to_default_on_deserialization_errors || self.revertible
    }

    /// Gets the path that is set, if any.
    pub fn configured_path(&self) -> (r: Option<&str>)
        ensures
            match self@.path {
                Some(path) => r matches Some(p) && p@ == path,
                None => r is None,
            },
    {
        match &self.path {
            Some(path) => Some(path.as_str()),
            None => None,
        }
    }

    /// Builds the persistent resource, stored in the file at the path that
    /// is set. The name, format, path and default must be set, and a resource
    /// that reverts to its default on deserialization errors must be
    /// revertible.
    pub fn build(self) -> (r: (Persistent<R>, Step))
        requires
            self@.name is Some,
            self@.format is Some,
            self@.path is Some,
            self@.default is Some,
            self@.revert_on_error ==> self@.revertible,
        ensures
            r.0@ == PersistentView::created(
                self@.name.unwrap(),
                self@.format.unwrap(),
                StorageView::Filesystem(self@.path.unwrap()),
                self@.loaded,
                self@.default.unwrap(),
                self@.revertible,
                self@.revert_on_error,
            ),
            r.0@.wf(),
            r.1 == Step::Perform(Request::CheckOccupied),
    {
        let PersistentBuilder {
            name,
            format,
            path,
            default,
            loaded,
            revertible,
            revert_to_default_on_deserialization_errors,
        } = self;
        let name = name.unwrap();
        let storage = Storage::Filesystem { path: path.unwrap() };
        Persistent::new(
            name.as_str(),
            format.unwrap(),
            storage,
            loaded,
            default.unwrap(),
            revertible,
            revert_to_default_on_deserialization_errors,
        )
    }

    /// Builds the persistent resource in browser storage, which the path
    /// selects: `/local/<key>` selects local storage and `/session/<key>`
    /// session storage. A path that selects neither builds nothing. The name,
    /// format, path and default must be set, and a resource that reverts to
    /// its default on deserialization errors must be revertible.
    pub fn build_in_browser(self) -> (r: Option<(Persistent<R>, Step)>)
        requires
            self@.name is Some,
            self@.format is Some,
            self@.path is Some,
            self@.default is Some,
            self@.revert_on_error ==> self@.revertible,
        ensures
            match browser_storage(self@.path.unwrap()) {
                Some(storage) => r matches Some(built) && built.0@ == PersistentView::created(
                    self@.name.unwrap(),
                    self@.format.unwrap(),
                    storage,
                    self@.loaded,
                    self@.default.unwrap(),
                    self@.revertible,
                    self@.revert_on_error,
                ) && built.0@.wf() && built.1 == Step::Perform(Request::CheckOccupied),
                None => r is None,
            },
    {
        let PersistentBuilder {
            name,
            format,
            path,
            default,
            loaded,
            revertible,
            revert_to_default_on_deserialization_errors,
        } = self;
        let name = name.unwrap();
        let path = path.unwrap();
        match Storage::from_browser_path(path.as_str()) {
            Some(storage) => Some(
                Persistent::new(
                    name.as_str(),
                    format.unwrap(),
                    storage,
                    loaded,
                    default.unwrap(),
                    revertible,
                    revert_to_default_on_deserialization_errors,
                ),
            ),
            None => None,
        }
    }
}

} // verus!
