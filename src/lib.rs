//! Single-use builders for native file pickers and message boxes.
//!
//! Each builder holds the native dialog builder in an owned slot. A
//! configuration call takes the native value out, folds one setting into it
//! and puts the result back; the terminal step takes it out for good, so a
//! consumed builder rejects every further call with
//! [`DialogError::AlreadyConsumed`]. Showing the dialog and reading files is
//! left to the host; the results it gets back are translated by [`paths`],
//! [`file_handle`] and [`message_dialog::answer`].
pub mod builder;
pub mod dialog_buttons;
pub mod dialog_level;
pub mod error;
pub mod file_dialog;
pub mod file_handle;
pub mod message_dialog;
pub mod native;
pub mod paths;

pub use dialog_buttons::DialogButtons;
pub use dialog_level::DialogLevel;
pub use error::DialogError;
pub use file_dialog::{AsyncFileDialogBuilder, FileDialogBuilder};
pub use file_handle::PathHandle;
pub use message_dialog::{AsyncMessageDialogBuilder, MessageDialogBuilder};
