use vstd::prelude::*;

verus! {

/// A store-assigned record identity: the twelve bytes of the store's object id.
#[derive(Clone, Copy, Debug, PartialEq, Eq)]
pub struct RecordId {
    pub bytes: [u8; 12],
}

/// A point in time, in milliseconds since the Unix epoch, UTC.
#[derive(Clone, Copy, Debug, PartialEq, Eq)]
pub struct Timestamp {
    pub millis: i64,
}

/// The failures of the pipeline. All but `SetupError` concern one event only.
#[derive(Clone, Copy, Debug, PartialEq, Eq)]
pub enum PipelineError {
    /// The watcher or the store could not be set up.
    SetupError,
    /// The changed path has no file name to derive an identity from.
    MissingIdentity,
    /// The store query made to classify a change failed.
    ClassificationError,
    /// No entry of the routing table matches the changed path.
    RoutingError,
    /// The changed path has no extension.
    MissingExtension,
    /// Inserting or updating a record failed.
    StoreWriteError,
    /// A record looked up by its identity does not exist.
    NotFound,
}

/// A failure reported by the store, with its message.
#[derive(Clone, Debug, PartialEq, Eq)]
pub struct StoreError {
    pub message: String,
}

} // verus!
