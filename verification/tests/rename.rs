use image_namer::failure::Failure;
use image_namer::rename::{RenameAction, RenameBatch, RenameOperation, RenameStage};

fn op(old_path: &str, new_name: &str) -> RenameOperation {
    RenameOperation { old_path: old_path.to_string(), new_name: new_name.to_string() }
}

#[test]
fn an_empty_batch_ends_at_once() {
    let (mut batch, action) = RenameBatch::start(Vec::new());
    assert!(matches!(action, RenameAction::Finish { outcome: Ok(()) }));
    assert_eq!(batch.current_stage(), RenameStage::Finished);
    assert_eq!(batch.completed(), 0);
    assert!(batch.on_exists(true).is_none());
    assert!(batch.on_vacant(true).is_none());
    assert!(batch.on_renamed(Ok(())).is_none());
}

/// Answers that the file is there and that its new path is free.
fn confirm(batch: &mut RenameBatch, to: &str) -> RenameAction {
    match batch.on_exists(true).unwrap() {
        RenameAction::CheckVacant { path } => assert_eq!(path, to),
        other => panic!("{:?}", other),
    }
    assert_eq!(batch.current_stage(), RenameStage::ConfirmingVacancy);
    batch.on_vacant(true).unwrap()
}

#[test]
fn renames_are_made_in_order() {
    let (mut batch, action) = RenameBatch::start(vec![op("a/photo.jpg", "sunset"), op("b/scan", "x"), op("c.d/e.f.png", "last")]);
    assert!(matches!(action, RenameAction::CheckExists { path } if path == "a/photo.jpg"));
    assert!(matches!(
        confirm(&mut batch, "a/sunset.jpg"),
        RenameAction::Rename { from, to } if from == "a/photo.jpg" && to == "a/sunset.jpg"
    ));
    assert_eq!(batch.completed(), 0);
    assert!(matches!(batch.on_renamed(Ok(())).unwrap(), RenameAction::CheckExists { path } if path == "b/scan"));
    assert_eq!(batch.completed(), 1);
    assert!(matches!(
        confirm(&mut batch, "b/x"),
        RenameAction::Rename { from, to } if from == "b/scan" && to == "b/x"
    ));
    assert!(matches!(batch.on_renamed(Ok(())).unwrap(), RenameAction::CheckExists { path } if path == "c.d/e.f.png"));
    assert!(matches!(
        confirm(&mut batch, "c.d/last.png"),
        RenameAction::Rename { from, to } if from == "c.d/e.f.png" && to == "c.d/last.png"
    ));
    assert!(matches!(batch.on_renamed(Ok(())).unwrap(), RenameAction::Finish { outcome: Ok(()) }));
    assert_eq!(batch.completed(), 3);
    assert_eq!(batch.current_stage(), RenameStage::Finished);
}

#[test]
fn a_missing_file_stops_the_batch() {
    let (mut batch, _) = RenameBatch::start(vec![op("a/one.jpg", "1"), op("a/two.jpg", "2"), op("a/three.jpg", "3")]);
    confirm(&mut batch, "a/1.jpg");
    batch.on_renamed(Ok(())).unwrap();
    match batch.on_exists(false).unwrap() {
        RenameAction::Finish { outcome: Err(failure) } => {
            assert!(matches!(&failure, Failure::FileNotFound { path } if path == "a/two.jpg"));
            assert_eq!(failure.message(), "文件不存在：a/two.jpg");
        }
        other => panic!("{:?}", other),
    }
    assert_eq!(batch.completed(), 1);
    assert_eq!(batch.current_stage(), RenameStage::Finished);
    assert!(batch.on_exists(true).is_none());
    assert!(batch.on_renamed(Ok(())).is_none());
    assert_eq!(batch.completed(), 1);
}

#[test]
fn a_failed_rename_stops_the_batch() {
    let (mut batch, _) = RenameBatch::start(vec![op("a/one.jpg", "1"), op("a/two.jpg", "2")]);
    confirm(&mut batch, "a/1.jpg");
    match batch.on_renamed(Err("destination exists".to_string())).unwrap() {
        RenameAction::Finish { outcome: Err(failure) } => {
            assert!(matches!(&failure, Failure::RenameFailed { path, cause } if path == "a/one.jpg" && cause == "destination exists"));
            assert_eq!(failure.message(), "重命名文件失败 a/one.jpg: destination exists");
        }
        other => panic!("{:?}", other),
    }
    assert_eq!(batch.completed(), 0);
    assert_eq!(batch.current_stage(), RenameStage::Finished);
    assert!(batch.on_exists(true).is_none());
}

#[test]
fn an_answer_that_was_not_asked_for_changes_nothing_in_a_batch() {
    let (mut batch, _) = RenameBatch::start(vec![op("a/one.jpg", "1")]);
    assert!(batch.on_renamed(Ok(())).is_none());
    assert!(batch.on_renamed(Err("x".to_string())).is_none());
    assert_eq!(batch.current_stage(), RenameStage::ConfirmingFile);
    assert!(batch.on_vacant(true).is_none());
    assert_eq!(batch.completed(), 0);
    batch.on_exists(true).unwrap();
    assert!(batch.on_exists(false).is_none());
    assert!(batch.on_renamed(Ok(())).is_none());
    assert_eq!(batch.current_stage(), RenameStage::ConfirmingVacancy);
    batch.on_vacant(true).unwrap();
    assert!(batch.on_vacant(false).is_none());
    assert!(batch.on_exists(false).is_none());
    assert_eq!(batch.current_stage(), RenameStage::Renaming);
    assert!(matches!(batch.on_renamed(Ok(())).unwrap(), RenameAction::Finish { outcome: Ok(()) }));
}

#[test]
fn a_taken_destination_stops_the_batch_before_the_rename() {
    let (mut batch, _) = RenameBatch::start(vec![op("a/one.jpg", "1"), op("a/two.jpg", "1"), op("a/three.jpg", "3")]);
    confirm(&mut batch, "a/1.jpg");
    batch.on_renamed(Ok(())).unwrap();
    assert!(matches!(batch.on_exists(true).unwrap(), RenameAction::CheckVacant { path } if path == "a/1.jpg"));
    match batch.on_vacant(false).unwrap() {
        RenameAction::Finish { outcome: Err(failure) } => {
            assert!(matches!(&failure, Failure::RenameFailed { path, cause } if path == "a/two.jpg" && cause == "目标文件已存在：a/1.jpg"));
            assert_eq!(failure.message(), "重命名文件失败 a/two.jpg: 目标文件已存在：a/1.jpg");
        }
        other => panic!("{:?}", other),
    }
    assert_eq!(batch.completed(), 1);
    assert_eq!(batch.current_stage(), RenameStage::Finished);
    assert!(batch.on_vacant(true).is_none());
    assert!(batch.on_renamed(Ok(())).is_none());
}

#[test]
fn a_rename_to_the_name_the_file_has_asks_for_no_free_path() {
    let (mut batch, _) = RenameBatch::start(vec![op("a/same.jpg", "same")]);
    assert!(matches!(
        batch.on_exists(true).unwrap(),
        RenameAction::Rename { from, to } if from == "a/same.jpg" && to == "a/same.jpg"
    ));
    assert_eq!(batch.current_stage(), RenameStage::Renaming);
    assert!(matches!(batch.on_renamed(Ok(())).unwrap(), RenameAction::Finish { outcome: Ok(()) }));
}
