//! The configuration that every scan reads.
//!
//! A scan takes a snapshot of the configuration and works from that copy, so
//! it sees one consistent configuration from start to end however long its
//! backend takes. An update swaps the whole configuration at once; no field
//! is ever changed in place.

use vstd::prelude::*;

verus! {

/// Which backend serves the scans.
#[derive(Debug, Clone, Copy, PartialEq, Eq)]
pub enum BackendKind {
    Remote,
    Local,
}

/// One configuration: the active backend, and what it takes to reach the
/// local one.
#[derive(Debug, Clone, PartialEq, Eq)]
pub struct Configuration {
    pub backend: BackendKind,
    /// The interpreter that runs the local classifier.
    pub executable: String,
    /// The script of the local classifier.
    pub script: String,
    /// The directory in which the local classifier runs.
    pub working_directory: String,
}

/// Mathematical model of a [`Configuration`].
pub struct ConfigurationView {
    pub backend: BackendKind,
    pub executable: Seq<char>,
    pub script: Seq<char>,
    pub working_directory: Seq<char>,
}

impl View for Configuration {
    type V = ConfigurationView;

    open spec fn view(&self) -> ConfigurationView {
        ConfigurationView {
            backend: self.backend,
            executable: self.executable@,
            script: self.script@,
            working_directory: self.working_directory@,
        }
    }
}

impl Configuration {
    /// A copy of the configuration.
    pub fn duplicate(&self) -> (r: Configuration)
        ensures
            r@ == self@,
    {
        Configuration {
            backend: self.backend,
            executable: self.executable.clone(),
            script: self.script.clone(),
            working_directory: self.working_directory.clone(),
        }
    }
}

/// The configuration shared by all scans.
#[derive(Debug)]
pub struct ExecutionContext {
    current: Configuration,
}

impl ExecutionContext {
    /// The configuration in force.
    pub closed spec fn configuration(&self) -> ConfigurationView {
        self.current@
    }

    /// A context with `initial` in force.
    pub fn new(initial: Configuration) -> (r: ExecutionContext)
        ensures
            r.configuration() == initial@,
    {
        ExecutionContext { current: initial }
    }

    /// A copy of the configuration in force, for one scan to work from.
    pub fn snapshot(&self) -> (r: Configuration)
        ensures
            r@ == self.configuration(),
    {
        self.current.duplicate()
    }

    /// The backend in force.
    pub fn backend(&self) -> (r: BackendKind)
        ensures
            r == self.configuration().backend,
    {
        self.current.backend
    }

    /// Puts `next` in force as a whole and returns the configuration that it
    /// replaces.
    pub fn replace(&mut self, next: Configuration) -> (r: Configuration)
        ensures
            final(self).configuration() == next@,
            r@ == old(self).configuration(),
    {
        let mut previous = next;
        std::mem::swap(&mut self.current, &mut previous);
        previous
    }
}

} // verus!
