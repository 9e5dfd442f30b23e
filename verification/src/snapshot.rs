//! The name of the baseline snapshot.
//!
//! The machine state itself belongs to the virtualization engine. The harness
//! holds the name under which the engine keeps it, fixed for the lifetime of
//! the process.

use vstd::prelude::*;

verus! {

/// Why a harness could not be configured. Such an error is fatal at startup.
#[derive(Clone, Copy, Debug, PartialEq, Eq, Structural)]
pub enum ConfigError {
    /// No name of a baseline snapshot was given.
    MissingSnapshotName,
}

/// The name of a whole-machine state that the engine captured earlier.
#[derive(Debug)]
pub struct SnapshotHandle {
    name: String,
}

impl View for SnapshotHandle {
    type V = Seq<char>;

    closed spec fn view(&self) -> Seq<char> {
        self.name@
    }
}

impl SnapshotHandle {
    /// The handle of the snapshot called `name`.
    pub fn new(name: String) -> (handle: SnapshotHandle)
        ensures
            handle@ == name@,
    {
        SnapshotHandle { name }
    }

    /// The handle for a name that the configuration may lack: the name is
    /// required, so its absence is an error.
    pub fn from_setting(setting: Option<String>) -> (handle: Result<SnapshotHandle, ConfigError>)
        ensures
            match setting {
                Some(name) => handle matches Ok(h) && h@ == name@,
                None => handle == Err::<SnapshotHandle, ConfigError>(ConfigError::MissingSnapshotName),
            },
    {
        match setting {
            Some(name) => Ok(SnapshotHandle { name }),
            None => Err(ConfigError::MissingSnapshotName),
        }
    }

    /// The snapshot's name, as the engine expects it.
    pub fn name(&self) -> (name: &str)
        ensures
            name@ == self@,
    {
        self.name.as_str()
    }
}

} // verus!
