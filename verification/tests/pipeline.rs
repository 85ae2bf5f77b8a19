use declarative_download::error::DownloadError;
use declarative_download::pipeline::{archive_path, partial_path, progress_path, FileAction, Stage};

#[test]
fn paths_lie_in_the_destination() {
    assert_eq!(progress_path("/tmp/x"), "/tmp/x/.progress");
    assert_eq!(partial_path("/tmp/x"), "/tmp/x/downloaded.part");
    assert_eq!(archive_path("/tmp/x"), "/tmp/x/downloaded.zip");
    assert_eq!(progress_path(""), "/.progress");
    assert_eq!(archive_path("D:/Programming/Odin/test"), "D:/Programming/Odin/test/downloaded.zip");
}

#[test]
fn stages_follow_one_another() {
    assert_eq!(Stage::first(), Stage::Rename);
    assert_eq!(Stage::Rename.next(true), Stage::DropMarker);
    assert_eq!(Stage::DropMarker.next(true), Stage::Unpack);
    assert_eq!(Stage::Unpack.next(true), Stage::Cleanup);
    assert_eq!(Stage::Cleanup.next(true), Stage::Succeeded);
    assert_eq!(Stage::Succeeded.next(true), Stage::Succeeded);
    assert_eq!(Stage::Succeeded.next(false), Stage::Succeeded);
}

#[test]
fn a_failed_stage_fails_the_pipeline() {
    assert_eq!(Stage::Rename.next(false), Stage::Failed);
    assert_eq!(Stage::DropMarker.next(false), Stage::Failed);
    assert_eq!(Stage::Unpack.next(false), Stage::Failed);
    assert_eq!(Stage::Failed.next(true), Stage::Failed);
    assert_eq!(Stage::Failed.next(false), Stage::Failed);
}

#[test]
fn an_archive_that_cannot_be_removed_does_not_fail_the_pipeline() {
    assert_eq!(Stage::Cleanup.next(false), Stage::Succeeded);
}

#[test]
fn each_stage_names_its_operation() {
    match Stage::Rename.action("/tmp/x") {
        Some(FileAction::Rename { from, to }) => {
            assert_eq!(from, "/tmp/x/downloaded.part");
            assert_eq!(to, "/tmp/x/downloaded.zip");
        }
        other => panic!("{:?}", other),
    }
    match Stage::DropMarker.action("/tmp/x") {
        Some(FileAction::Remove { path }) => assert_eq!(path, "/tmp/x/.progress"),
        other => panic!("{:?}", other),
    }
    match Stage::Unpack.action("/tmp/x") {
        Some(FileAction::Unpack { archive, into }) => {
            assert_eq!(archive, "/tmp/x/downloaded.zip");
            assert_eq!(into, "/tmp/x");
        }
        other => panic!("{:?}", other),
    }
    match Stage::Cleanup.action("/tmp/x") {
        Some(FileAction::Remove { path }) => assert_eq!(path, "/tmp/x/downloaded.zip"),
        other => panic!("{:?}", other),
    }
}

#[test]
fn final_stages_ask_for_nothing() {
    assert!(Stage::Succeeded.action("/tmp/x").is_none());
    assert!(Stage::Failed.action("/tmp/x").is_none());
}

#[test]
fn failed_unpacking_leaves_the_archive() {
    let mut stage = Stage::first();
    let mut removed = Vec::new();
    for ok in [true, true, false, true, true] {
        if let Some(FileAction::Remove { path }) = stage.action("/d") {
            removed.push(path);
        }
        stage = stage.next(ok);
    }
    assert_eq!(stage, Stage::Failed);
    assert_eq!(removed, vec!["/d/.progress".to_string()]);
}

#[test]
fn only_final_stages_have_an_outcome() {
    assert_eq!(Stage::Rename.outcome(), None);
    assert_eq!(Stage::DropMarker.outcome(), None);
    assert_eq!(Stage::Unpack.outcome(), None);
    assert_eq!(Stage::Cleanup.outcome(), None);
    assert_eq!(Stage::Succeeded.outcome(), Some(Ok(())));
    assert_eq!(Stage::Failed.outcome(), Some(Err(DownloadError::ExtractionFailed)));
}

#[test]
fn failed_unpacking_is_an_extraction_failure() {
    let stage = Stage::first().next(true).next(true).next(false);
    assert_eq!(stage.outcome(), Some(Err(DownloadError::ExtractionFailed)));
}
