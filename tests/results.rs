use native_dialogs::file_handle::{handle_result, handles_result};
use native_dialogs::message_dialog::answer;
use native_dialogs::paths::{contained, path_result, picked_path, picked_paths};
use native_dialogs::{DialogButtons, DialogError, DialogLevel, FileDialogBuilder, PathHandle};

#[test]
fn wrapped_path_round_trips() {
    let text = "/home/username/Documents/hello.txt";
    let h = PathHandle::wrap(text.to_string());
    assert_eq!(h.path(), Ok(text.to_string()));
    assert_eq!(h.to_string(), Ok(text.to_string()));
    assert_eq!(h.file_name(), "hello.txt");
}

#[test]
fn wrapped_path_without_file_name() {
    let h = PathHandle::wrap("/".to_string());
    assert_eq!(h.path(), Ok("/".to_string()));
    assert_eq!(h.file_name(), "");
    let e = PathHandle::wrap(String::new());
    assert_eq!(e.path(), Ok(String::new()));
}

#[test]
fn native_handle_path_is_read_as_text() {
    let native = rfd::FileHandle::from(std::path::PathBuf::from("/home/username/Pictures/image.png"));
    let h = PathHandle::from_native(native);
    assert_eq!(h.path(), Ok("/home/username/Pictures/image.png".to_string()));
    assert_eq!(h.file_name(), "image.png");
}

#[test]
fn dialog_handles_are_wrapped_in_order() {
    assert!(handle_result(None).is_none());
    let one = handle_result(Some(rfd::FileHandle::from(std::path::PathBuf::from("/a/one.txt")))).unwrap();
    assert_eq!(one.path(), Ok("/a/one.txt".to_string()));
    assert!(handles_result(None).is_none());
    let natives = vec![
        rfd::FileHandle::from(std::path::PathBuf::from("/a/one.txt")),
        rfd::FileHandle::from(std::path::PathBuf::from("/b/two.txt")),
    ];
    let hs = handles_result(Some(natives)).unwrap();
    assert_eq!(hs.len(), 2);
    assert_eq!(hs[0].path(), Ok("/a/one.txt".to_string()));
    assert_eq!(hs[1].path(), Ok("/b/two.txt".to_string()));
    assert_eq!(hs[1].file_name(), "two.txt");
}

#[test]
fn path_result_rejects_non_text() {
    assert_eq!(path_result(Some("/x".to_string())), Ok("/x".to_string()));
    assert_eq!(path_result(None), Err(DialogError::InvalidEncoding));
}

#[test]
fn cancelled_save_is_empty_not_error() {
    let mut d = FileDialogBuilder::new();
    assert_eq!(d.add_filter("Text".to_string(), vec!["txt".to_string()]), Ok(()));
    assert_eq!(d.set_title("Save file".to_string()), Ok(()));
    assert!(d.consume().is_ok());
    assert_eq!(picked_path(None), Ok(None));
}

#[test]
fn picked_path_outcomes() {
    assert_eq!(picked_path(None), Ok(None));
    assert_eq!(picked_path(Some(None)), Err(DialogError::InvalidEncoding));
    assert_eq!(
        picked_path(Some(Some("/home/username/Documents/hello.txt".to_string()))),
        Ok(Some("/home/username/Documents/hello.txt".to_string()))
    );
}

#[test]
fn picked_paths_outcomes() {
    assert_eq!(picked_paths(None), Ok(None));
    assert_eq!(picked_paths(Some(vec![])), Ok(Some(vec![])));
    assert_eq!(
        picked_paths(Some(vec![Some("/a".to_string()), Some("/b".to_string())])),
        Ok(Some(vec!["/a".to_string(), "/b".to_string()]))
    );
    assert_eq!(
        picked_paths(Some(vec![Some("/a".to_string()), None, Some("/c".to_string())])),
        Err(DialogError::InvalidEncoding)
    );
}

#[test]
fn aborted_call_is_native_panic() {
    assert_eq!(contained::<Vec<u8>>(None), Err(DialogError::NativePanic));
    assert_eq!(contained(Some(vec![72u8, 105])), Ok(vec![72u8, 105]));
    assert_eq!(contained(Some(Vec::<u8>::new())), Ok(vec![]));
    assert_eq!(contained(Some(true)), Ok(true));
}

#[test]
fn message_answer_is_affirmative_only_for_ok_or_yes() {
    assert!(answer(&rfd::MessageDialogResult::Ok));
    assert!(answer(&rfd::MessageDialogResult::Yes));
    assert!(!answer(&rfd::MessageDialogResult::No));
    assert!(!answer(&rfd::MessageDialogResult::Cancel));
    assert!(!answer(&rfd::MessageDialogResult::Custom("Ok".to_string())));
}

#[test]
fn levels_map_to_native_levels() {
    assert!(matches!(DialogLevel::Info.to_rfd_t(), rfd::MessageLevel::Info));
    assert!(matches!(DialogLevel::Warning.to_rfd_t(), rfd::MessageLevel::Warning));
    assert!(matches!(DialogLevel::Error.to_rfd_t(), rfd::MessageLevel::Error));
}

#[test]
fn buttons_map_to_native_buttons() {
    assert!(matches!(DialogButtons::OkOnly.to_rfd_t(), rfd::MessageButtons::Ok));
    assert!(matches!(DialogButtons::OkCancel.to_rfd_t(), rfd::MessageButtons::OkCancel));
    assert!(matches!(DialogButtons::YesNo.to_rfd_t(), rfd::MessageButtons::YesNo));
}
