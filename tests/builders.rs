use native_dialogs::{
    AsyncFileDialogBuilder, AsyncMessageDialogBuilder, DialogButtons, DialogError, DialogLevel,
    FileDialogBuilder, MessageDialogBuilder,
};

#[test]
fn file_dialog_configures_then_consumes_once() {
    let mut d = FileDialogBuilder::new();
    assert!(d.is_usable());
    assert_eq!(d.add_filter("Text files".to_string(), vec!["txt".to_string()]), Ok(()));
    assert_eq!(d.set_directory("/home/username/Documents".to_string()), Ok(()));
    assert_eq!(d.set_file_name("hello.txt".to_string()), Ok(()));
    assert_eq!(d.set_title("Save file".to_string()), Ok(()));
    assert!(d.is_usable());
    assert!(d.consume().is_ok());
    assert!(!d.is_usable());
}

#[test]
fn file_dialog_rejects_every_call_after_consume() {
    let mut d = FileDialogBuilder::new();
    assert!(d.consume().is_ok());
    assert_eq!(
        d.add_filter("Images".to_string(), vec!["png".to_string(), "jpg".to_string()]),
        Err(DialogError::AlreadyConsumed)
    );
    assert_eq!(d.set_directory("/tmp".to_string()), Err(DialogError::AlreadyConsumed));
    assert_eq!(d.set_file_name("a.txt".to_string()), Err(DialogError::AlreadyConsumed));
    assert_eq!(d.set_title("Title".to_string()), Err(DialogError::AlreadyConsumed));
    assert_eq!(d.consume().err(), Some(DialogError::AlreadyConsumed));
    assert!(!d.is_usable());
}

#[test]
fn async_file_dialog_second_pick_is_rejected() {
    let mut d = AsyncFileDialogBuilder::new();
    assert_eq!(d.add_filter("JavaScript".to_string(), vec!["js".to_string(), "mjs".to_string()]), Ok(()));
    assert_eq!(d.set_directory("~/Pictures".to_string()), Ok(()));
    let first = d.consume();
    assert!(first.is_ok());
    let second = d.consume();
    assert_eq!(second.err(), Some(DialogError::AlreadyConsumed));
    assert_eq!(d.set_title("again".to_string()), Err(DialogError::AlreadyConsumed));
    assert_eq!(d.set_file_name("again.txt".to_string()), Err(DialogError::AlreadyConsumed));
}

#[test]
fn async_file_dialog_configures_in_order() {
    let mut d = AsyncFileDialogBuilder::new();
    assert_eq!(d.set_file_name("Document.txt".to_string()), Ok(()));
    assert_eq!(d.set_title("Save your document".to_string()), Ok(()));
    assert_eq!(d.set_title("Save it".to_string()), Ok(()));
    assert!(d.is_usable());
}

#[test]
fn message_dialog_configures_then_consumes_once() {
    let mut d = MessageDialogBuilder::new();
    assert_eq!(d.set_level(DialogLevel::Error), Ok(()));
    assert_eq!(d.set_title("Uh oh!".to_string()), Ok(()));
    assert_eq!(d.set_description("Something went wrong.".to_string()), Ok(()));
    assert_eq!(d.set_buttons(DialogButtons::OkOnly), Ok(()));
    assert!(d.consume().is_ok());
    assert_eq!(d.set_level(DialogLevel::Info), Err(DialogError::AlreadyConsumed));
    assert_eq!(d.set_title("x".to_string()), Err(DialogError::AlreadyConsumed));
    assert_eq!(d.set_description("y".to_string()), Err(DialogError::AlreadyConsumed));
    assert_eq!(d.set_buttons(DialogButtons::YesNo), Err(DialogError::AlreadyConsumed));
    assert_eq!(d.consume().err(), Some(DialogError::AlreadyConsumed));
}

#[test]
fn async_message_dialog_second_show_is_rejected() {
    let mut d = AsyncMessageDialogBuilder::new();
    assert_eq!(d.set_buttons(DialogButtons::OkCancel), Ok(()));
    assert!(d.consume().is_ok());
    assert!(!d.is_usable());
    assert_eq!(d.consume().err(), Some(DialogError::AlreadyConsumed));
    assert_eq!(d.set_level(DialogLevel::Warning), Err(DialogError::AlreadyConsumed));
}

#[test]
fn error_reasons() {
    assert_eq!(DialogError::AlreadyConsumed.reason(), "Already used");
    assert_eq!(DialogError::InvalidEncoding.reason(), "Invalid UTF-8");
    assert_eq!(DialogError::NativePanic.reason(), "Panic");
}
