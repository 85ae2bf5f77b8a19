//! What follows a completed transfer: the partial file becomes the archive,
//! the progress marker goes, the archive is unpacked into the destination
//! and then removed.
//!
//! The pipeline is a sequence of stages. For each stage the library names the
//! file operation; the caller performs it and reports whether it succeeded.

use vstd::prelude::*;
use vstd::string::*;
use crate::error::DownloadError;

verus! {

/// The stages of the pipeline, in the order in which they are gone through.
#[derive(Debug, Clone, Copy, PartialEq, Eq, Structural)]
pub enum Stage {
    /// The partial file is renamed to the archive's name.
    Rename,
    /// The progress marker is removed.
    DropMarker,
    /// The archive is unpacked into the destination.
    Unpack,
    /// The archive is removed.
    Cleanup,
    /// The destination holds the archive's contents.
    Succeeded,
    /// A stage failed; nothing further is done, so that an archive that
    /// could not be unpacked stays in place.
    Failed,
}

/// The file operation of a stage.
#[derive(Debug)]
pub enum FileAction {
    /// Rename the file at `from` to `to`.
    Rename { from: String, to: String },
    /// Remove the file at `path`.
    Remove { path: String },
    /// Unpack the archive at `archive` into the directory `into`.
    Unpack { archive: String, into: String },
}

/// A file operation as a mathematical value.
pub enum FileActionModel {
    Rename { from: Seq<char>, to: Seq<char> },
    Remove { path: Seq<char> },
    Unpack { archive: Seq<char>, into: Seq<char> },
}

impl View for FileAction {
    type V = FileActionModel;

    open spec fn view(&self) -> FileActionModel {
        match *self {
            FileAction::Rename { from, to } => FileActionModel::Rename { from: from@, to: to@ },
            FileAction::Remove { path } => FileActionModel::Remove { path: path@ },
            FileAction::Unpack { archive, into } => FileActionModel::Unpack {
                archive: archive@,
                into: into@,
            },
        }
    }
}

/// The path of the progress marker of a destination.
pub open spec fn progress_path_of(destination: Seq<char>) -> Seq<char> {
    destination + "/.progress"@
}

/// The path of the partial file of a destination.
pub open spec fn partial_path_of(destination: Seq<char>) -> Seq<char> {
    destination + "/downloaded.part"@
}

/// The path of the finished archive of a destination.
pub open spec fn archive_path_of(destination: Seq<char>) -> Seq<char> {
    destination + "/downloaded.zip"@
}

/// The stage that follows `stage` once its operation succeeded or failed.
/// Only the removal of the archive may fail without failing the pipeline.
pub open spec fn stage_after(stage: Stage, succeeded: bool) -> Stage {
    match stage {
        Stage::Rename => if succeeded {
            Stage::DropMarker
        } else {
            Stage::Failed
        },
        Stage::DropMarker => if succeeded {
            Stage::Unpack
        } else {
            Stage::Failed
        },
        Stage::Unpack => if succeeded {
            Stage::Cleanup
        } else {
            Stage::Failed
        },
        Stage::Cleanup => Stage::Succeeded,
        Stage::Succeeded => Stage::Succeeded,
        Stage::Failed => Stage::Failed,
    }
}

/// The operation of a stage on a destination; the two final stages have
/// none.
pub open spec fn action_of(stage: Stage, destination: Seq<char>) -> Option<FileActionModel> {
    match stage {
        Stage::Rename => Some(
            FileActionModel::Rename {
                from: partial_path_of(destination),
                to: archive_path_of(destination),
            },
        ),
        Stage::DropMarker => Some(FileActionModel::Remove { path: progress_path_of(destination) }),
        Stage::Unpack => Some(
            FileActionModel::Unpack { archive: archive_path_of(destination), into: destination },
        ),
        Stage::Cleanup => Some(FileActionModel::Remove { path: archive_path_of(destination) }),
        Stage::Succeeded => None,
        Stage::Failed => None,
    }
}

/// How the pipeline ended, once it has: well, or with a failed extraction.
pub open spec fn outcome_of(stage: Stage) -> Option<Result<(), DownloadError>> {
    match stage {
        Stage::Succeeded => Some(Ok(())),
        Stage::Failed => Some(Err(DownloadError::ExtractionFailed)),
        _ => None,
    }
}

/// The stage after a run of operations with the given outcomes.
pub open spec fn stage_after_all(stage: Stage, outcomes: Seq<bool>) -> Stage
    decreases outcomes.len(),
{
    if outcomes.len() == 0 {
        stage
    } else {
        stage_after(stage_after_all(stage, outcomes.drop_last()), outcomes.last())
    }
}

/// The view of an operation that may be missing.
pub open spec fn action_view(action: Option<FileAction>) -> Option<FileActionModel> {
    match action {
        Some(a) => Some(a@),
        None => None,
    }
}

/// The path of the progress marker of a destination.
pub fn progress_path(destination: &str) -> (path: String)
    ensures
        path@ == progress_path_of(destination@),
{
    String::from_str(destination).concat("/.progress")
}

/// The path of the partial file of a destination.
pub fn partial_path(destination: &str) -> (path: String)
    ensures
        path@ == partial_path_of(destination@),
{
    String::from_str(destination).concat("/downloaded.part")
}

/// The path of the finished archive of a destination.
pub fn archive_path(destination: &str) -> (path: String)
    ensures
        path@ == archive_path_of(destination@),
{
    String::from_str(destination).concat("/downloaded.zip")
}

impl Stage {
    /// The stage at which the pipeline starts.
    pub fn first() -> (stage: Stage)
        ensures
            stage == Stage::Rename,
    {
        Stage::Rename
    }

    /// The stage that follows once the operation of this one succeeded or
    /// failed.
    pub fn next(self, succeeded: bool) -> (stage: Stage)
        ensures
            stage == stage_after(self, succeeded),
    {
        match self {
            Stage::Rename => if succeeded {
                Stage::DropMarker
            } else {
                Stage::Failed
            },
            Stage::DropMarker => if succeeded {
                Stage::Unpack
            } else {
                Stage::Failed
            },
            Stage::Unpack => if succeeded {
                Stage::Cleanup
            } else {
                Stage::Failed
            },
            Stage::Cleanup => Stage::Succeeded,
            Stage::Succeeded => Stage::Succeeded,
            Stage::Failed => Stage::Failed,
        }
    }

    /// How the pipeline ended, if this is one of the two final stages.
    pub fn outcome(self) -> (outcome: Option<Result<(), DownloadError>>)
        ensures
            outcome == outcome_of(self),
    {
        match self {
            Stage::Succeeded => Some(Ok(())),
            Stage::Failed => Some(Err(DownloadError::ExtractionFailed)),
            _ => None,
        }
    }

    /// The file operation of this stage on a destination, if it has one.
    pub fn action(self, destination: &str) -> (action: Option<FileAction>)
        ensures
            action_view(action) == action_of(self, destination@),
    {
        match self {
            Stage::Rename => Some(
                FileAction::Rename {
                    from: partial_path(destination),
                    to: archive_path(destination),
                },
            ),
            Stage::DropMarker => Some(FileAction::Remove { path: progress_path(destination) }),
            Stage::Unpack => Some(
                FileAction::Unpack {
                    archive: archive_path(destination),
                    into: String::from_str(destination),
                },
            ),
            Stage::Cleanup => Some(FileAction::Remove { path: archive_path(destination) }),
            Stage::Succeeded => None,
            Stage::Failed => None,
        }
    }
}

/// A pipeline whose first three operations succeed ends in success,
/// whether or not the archive could be removed in the end; and on the way
/// the marker and the archive are the files that it removes.
pub proof fn lemma_pipeline_succeeds(destination: Seq<char>, removed: bool)
    ensures
        stage_after_all(Stage::Rename, seq![true, true, true, removed]) == Stage::Succeeded,
        outcome_of(stage_after_all(Stage::Rename, seq![true, true, true, removed])) == Some(
            Ok::<(), DownloadError>(()),
        ),
        action_of(stage_after_all(Stage::Rename, seq![true]), destination) == Some(
            FileActionModel::Remove { path: progress_path_of(destination) },
        ),
        action_of(stage_after_all(Stage::Rename, seq![true, true, true]), destination) == Some(
            FileActionModel::Remove { path: archive_path_of(destination) },
        ),
{
    let all = seq![true, true, true, removed];
    let three = seq![true, true, true];
    let two = seq![true, true];
    let one = seq![true];
    assert(all.drop_last() =~= three);
    assert(three.drop_last() =~= two);
    assert(two.drop_last() =~= one);
    assert(one.drop_last() =~= Seq::<bool>::empty());
    assert(stage_after_all(Stage::Rename, Seq::<bool>::empty()) == Stage::Rename);
    assert(stage_after_all(Stage::Rename, one) == Stage::DropMarker);
    assert(stage_after_all(Stage::Rename, two) == Stage::Unpack);
    assert(stage_after_all(Stage::Rename, three) == Stage::Cleanup);
}

/// Once a stage has failed, the pipeline stays failed whatever is reported
/// to it, and asks for no further operation: nothing removes the archive.
pub proof fn lemma_failure_is_final(outcomes: Seq<bool>, destination: Seq<char>)
    ensures
        stage_after_all(Stage::Failed, outcomes) == Stage::Failed,
        outcome_of(stage_after_all(Stage::Failed, outcomes)) == Some(
            Err::<(), DownloadError>(DownloadError::ExtractionFailed),
        ),
        action_of(stage_after_all(Stage::Failed, outcomes), destination) is None,
    decreases outcomes.len(),
{
    if outcomes.len() > 0 {
        lemma_failure_is_final(outcomes.drop_last(), destination);
    }
}

} // verus!
