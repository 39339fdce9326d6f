//! Error and outcome kinds shared by the request flows.

use vstd::prelude::*;

verus! {

/// The required field whose absence made a request unprocessable.
#[derive(Clone, Copy, Debug, PartialEq, Eq, Structural)]
pub enum FieldName {
    DownloadId,
    DownloadClient,
    Release,
    EpisodeFiles,
    DestinationPath,
    MovieFile,
    SourcePath,
    CrossSeedLocalUrl,
    CrossSeedLocalApiKey,
    CrossSeedSeedboxApiKey,
    SeedboxClientName,
    LocalClientDir,
    SeedboxClientHost,
    SeedboxClientUser,
    SeedboxClientPassword,
    LocalClientHost,
    LocalClientUser,
    LocalClientPassword,
}

/// Why a request failed.  Validation errors abort before any outbound call;
/// downstream errors abort the remaining steps of the current path only.
#[derive(Clone, Copy, Debug, PartialEq, Eq, Structural)]
pub enum FlowError {
    /// A required identity, path or configuration field was absent.
    MissingField(FieldName),
    /// A series event that is not a season pack carried an empty episode list.
    EmptyEpisodeList,
    /// A source path did not lie under the configured local root, or nothing
    /// remained of it after stripping the root.
    InvalidPath,
    /// A downstream API answered the final attempt with a non-success status.
    DownstreamRejected(u16),
    /// A downstream API could not be reached at all.
    DownstreamUnavailable,
}

/// Why a flow ended successfully without any outbound call.
#[derive(Clone, Copy, Debug, PartialEq, Eq, Structural)]
pub enum SkipReason {
    /// The event carried the test event type.
    TestEvent,
    /// The event's dedup key was already recorded in the ledger.
    AlreadyProcessed,
    /// The download client matched neither configured client registry.
    UnrecognizedClient,
    /// The download client is not the configured seedbox client.
    NotSeedboxClient,
}

} // verus!
