//! The native dialog library's types and the calls made into it.
//!
//! Every native configuration call consumes the native builder and hands back
//! a new one. What a native builder holds is named field by field below, and
//! each call states what it stores there, as the library's source does: a
//! setter overwrites its own field, `add_filter` appends, and every other
//! field is kept.
use vstd::prelude::*;

verus! {

#[verifier::external_type_specification]
#[verifier::external_body]
pub struct ExFileDialog(rfd::FileDialog);

#[verifier::external_type_specification]
#[verifier::external_body]
pub struct ExAsyncFileDialog(rfd::AsyncFileDialog);

#[verifier::external_type_specification]
#[verifier::external_body]
pub struct ExMessageDialog(rfd::MessageDialog);

#[verifier::external_type_specification]
#[verifier::external_body]
pub struct ExAsyncMessageDialog(rfd::AsyncMessageDialog);

#[verifier::external_type_specification]
#[verifier::external_body]
pub struct ExFileHandle(rfd::FileHandle);

#[verifier::external_type_specification]
pub struct ExMessageLevel(rfd::MessageLevel);

#[verifier::external_type_specification]
pub struct ExMessageButtons(rfd::MessageButtons);

#[verifier::external_type_specification]
pub struct ExMessageDialogResult(rfd::MessageDialogResult);

/// The filters a native file dialog holds: each filter's name and
/// extensions, oldest first.
pub uninterp spec fn file_dialog_filters(d: rfd::FileDialog) -> Seq<(Seq<char>, Seq<Seq<char>>)>;

/// The starting directory a native file dialog holds, as the text it was set
/// from.
pub uninterp spec fn file_dialog_directory(d: rfd::FileDialog) -> Option<Seq<char>>;

/// The default file name a native file dialog holds.
pub uninterp spec fn file_dialog_file_name(d: rfd::FileDialog) -> Option<Seq<char>>;

/// The title a native file dialog holds.
pub uninterp spec fn file_dialog_title(d: rfd::FileDialog) -> Option<Seq<char>>;

/// The filters a native async file dialog holds, oldest first.
pub uninterp spec fn async_file_dialog_filters(d: rfd::AsyncFileDialog) -> Seq<(Seq<char>, Seq<Seq<char>>)>;

/// The starting directory a native async file dialog holds, as the text it
/// was set from.
pub uninterp spec fn async_file_dialog_directory(d: rfd::AsyncFileDialog) -> Option<Seq<char>>;

/// The default file name a native async file dialog holds.
pub uninterp spec fn async_file_dialog_file_name(d: rfd::AsyncFileDialog) -> Option<Seq<char>>;

/// The title a native async file dialog holds.
pub uninterp spec fn async_file_dialog_title(d: rfd::AsyncFileDialog) -> Option<Seq<char>>;

/// The level a native message box holds.
pub uninterp spec fn message_dialog_level(d: rfd::MessageDialog) -> rfd::MessageLevel;

/// The button set a native message box holds.
pub uninterp spec fn message_dialog_buttons(d: rfd::MessageDialog) -> rfd::MessageButtons;

/// The title a native message box holds.
pub uninterp spec fn message_dialog_title(d: rfd::MessageDialog) -> Seq<char>;

/// The description a native message box holds.
pub uninterp spec fn message_dialog_description(d: rfd::MessageDialog) -> Seq<char>;

/// The level a native async message box holds.
pub uninterp spec fn async_message_dialog_level(d: rfd::AsyncMessageDialog) -> rfd::MessageLevel;

/// The button set a native async message box holds.
pub uninterp spec fn async_message_dialog_buttons(d: rfd::AsyncMessageDialog) -> rfd::MessageButtons;

/// The title a native async message box holds.
pub uninterp spec fn async_message_dialog_title(d: rfd::AsyncMessageDialog) -> Seq<char>;

/// The description a native async message box holds.
pub uninterp spec fn async_message_dialog_description(d: rfd::AsyncMessageDialog) -> Seq<char>;

/// The path of a native file handle as text, `None` when it is not valid
/// unicode.
pub uninterp spec fn handle_path_text(h: rfd::FileHandle) -> Option<Seq<char>>;

/// The file name of a native file handle, by the native library's rule.
pub uninterp spec fn handle_file_name(h: rfd::FileHandle) -> Seq<char>;

/// The settings of a file dialog.
pub struct FileConfig {
    /// Each filter's name and extensions, oldest first.
    pub filters: Seq<(Seq<char>, Seq<Seq<char>>)>,
    /// The directory the dialog opens in.
    pub directory: Option<Seq<char>>,
    /// The file name the dialog proposes.
    pub file_name: Option<Seq<char>>,
    /// The window title.
    pub title: Option<Seq<char>>,
}

/// The settings of a message box.
pub struct MessageConfig {
    pub level: rfd::MessageLevel,
    pub buttons: rfd::MessageButtons,
    pub title: Seq<char>,
    pub description: Seq<char>,
}

/// The settings a native file dialog holds.
pub open spec fn file_config(d: rfd::FileDialog) -> FileConfig {
    FileConfig {
        filters: file_dialog_filters(d),
        directory: file_dialog_directory(d),
        file_name: file_dialog_file_name(d),
        title: file_dialog_title(d),
    }
}

/// The settings a native async file dialog holds.
pub open spec fn async_file_config(d: rfd::AsyncFileDialog) -> FileConfig {
    FileConfig {
        filters: async_file_dialog_filters(d),
        directory: async_file_dialog_directory(d),
        file_name: async_file_dialog_file_name(d),
        title: async_file_dialog_title(d),
    }
}

/// The settings a native message box holds.
pub open spec fn message_config(d: rfd::MessageDialog) -> MessageConfig {
    MessageConfig {
        level: message_dialog_level(d),
        buttons: message_dialog_buttons(d),
        title: message_dialog_title(d),
        description: message_dialog_description(d),
    }
}

/// The settings a native async message box holds.
pub open spec fn async_message_config(d: rfd::AsyncMessageDialog) -> MessageConfig {
    MessageConfig {
        level: async_message_dialog_level(d),
        buttons: async_message_dialog_buttons(d),
        title: async_message_dialog_title(d),
        description: async_message_dialog_description(d),
    }
}

/// A new file dialog's settings: no filter, directory, file name or title.
pub open spec fn default_file_config() -> FileConfig {
    FileConfig { filters: Seq::empty(), directory: None, file_name: None, title: None }
}

/// A new message box's settings: level `Info`, buttons `Ok`, empty title and
/// description.
pub open spec fn default_message_config() -> MessageConfig {
    MessageConfig {
        level: rfd::MessageLevel::Info,
        buttons: rfd::MessageButtons::Ok,
        title: Seq::empty(),
        description: Seq::empty(),
    }
}

/// The starting directory that setting `dir` leaves: none for the empty path.
pub open spec fn directory_for(dir: Seq<char>) -> Option<Seq<char>> {
    if dir.len() == 0 {
        None
    } else {
        Some(dir)
    }
}

/// The texts of a list of strings.
pub open spec fn texts(v: Seq<String>) -> Seq<Seq<char>> {
    v.map_values(|s: String| s@)
}

/// Relies on `rfd::FileDialog::new`: a builder with no filter, directory, file name or
/// title.
#[verifier::external_body]
pub(crate) fn file_dialog_new() -> (r: rfd::FileDialog)
    ensures
        file_dialog_filters(r) == Seq::<(Seq<char>, Seq<Seq<char>>)>::empty(),
        file_dialog_directory(r) == None::<Seq<char>>,
        file_dialog_file_name(r) == None::<Seq<char>>,
        file_dialog_title(r) == None::<Seq<char>>,
{
    rfd::FileDialog::new()
}

/// Relies on `rfd::FileDialog::add_filter`: appends the filter, keeps the rest.
#[verifier::external_body]
pub(crate) fn file_dialog_add_filter(d: rfd::FileDialog, name: String, extensions: Vec<String>) -> (r: rfd::FileDialog)
    ensures
        file_dialog_filters(r) == file_dialog_filters(d).push((name@, texts(extensions@))),
        file_dialog_directory(r) == file_dialog_directory(d),
        file_dialog_file_name(r) == file_dialog_file_name(d),
        file_dialog_title(r) == file_dialog_title(d),
{
    d.add_filter(name, &extensions)
}

/// Relies on `rfd::FileDialog::set_directory`: sets the starting directory, which the
/// empty path clears; keeps the rest.
#[verifier::external_body]
pub(crate) fn file_dialog_set_directory(d: rfd::FileDialog, dir: String) -> (r: rfd::FileDialog)
    ensures
        file_dialog_filters(r) == file_dialog_filters(d),
        file_dialog_directory(r) == directory_for(dir@),
        file_dialog_file_name(r) == file_dialog_file_name(d),
        file_dialog_title(r) == file_dialog_title(d),
{
    d.set_directory(dir)
}

/// Relies on `rfd::FileDialog::set_file_name`: sets the default file name, keeps the
/// rest.
#[verifier::external_body]
pub(crate) fn file_dialog_set_file_name(d: rfd::FileDialog, name: String) -> (r: rfd::FileDialog)
    ensures
        file_dialog_filters(r) == file_dialog_filters(d),
        file_dialog_directory(r) == file_dialog_directory(d),
        file_dialog_file_name(r) == Some(name@),
        file_dialog_title(r) == file_dialog_title(d),
{
    d.set_file_name(name)
}

/// Relies on `rfd::FileDialog::set_title`: sets the title, keeps the rest.
#[verifier::external_body]
pub(crate) fn file_dialog_set_title(d: rfd::FileDialog, title: String) -> (r: rfd::FileDialog)
    ensures
        file_dialog_filters(r) == file_dialog_filters(d),
        file_dialog_directory(r) == file_dialog_directory(d),
        file_dialog_file_name(r) == file_dialog_file_name(d),
        file_dialog_title(r) == Some(title@),
{
    d.set_title(title)
}

/// Relies on `rfd::AsyncFileDialog::new`: a builder with no filter, directory, file name or
/// title.
#[verifier::external_body]
pub(crate) fn async_file_dialog_new() -> (r: rfd::AsyncFileDialog)
    ensures
        async_file_dialog_filters(r) == Seq::<(Seq<char>, Seq<Seq<char>>)>::empty(),
        async_file_dialog_directory(r) == None::<Seq<char>>,
        async_file_dialog_file_name(r) == None::<Seq<char>>,
        async_file_dialog_title(r) == None::<Seq<char>>,
{
    rfd::AsyncFileDialog::new()
}

/// Relies on `rfd::AsyncFileDialog::add_filter`: appends the filter, keeps the rest.
#[verifier::external_body]
pub(crate) fn async_file_dialog_add_filter(d: rfd::AsyncFileDialog, name: String, extensions: Vec<String>) -> (r: rfd::AsyncFileDialog)
    ensures
        async_file_dialog_filters(r) == async_file_dialog_filters(d).push((name@, texts(extensions@))),
        async_file_dialog_directory(r) == async_file_dialog_directory(d),
        async_file_dialog_file_name(r) == async_file_dialog_file_name(d),
        async_file_dialog_title(r) == async_file_dialog_title(d),
{
    d.add_filter(name, &extensions)
}

/// Relies on `rfd::AsyncFileDialog::set_directory`: sets the starting directory, which the
/// empty path clears; keeps the rest.
#[verifier::external_body]
pub(crate) fn async_file_dialog_set_directory(d: rfd::AsyncFileDialog, dir: String) -> (r: rfd::AsyncFileDialog)
    ensures
        async_file_dialog_filters(r) == async_file_dialog_filters(d),
        async_file_dialog_directory(r) == directory_for(dir@),
        async_file_dialog_file_name(r) == async_file_dialog_file_name(d),
        async_file_dialog_title(r) == async_file_dialog_title(d),
{
    d.set_directory(dir)
}

/// Relies on `rfd::AsyncFileDialog::set_file_name`: sets the default file name, keeps the
/// rest.
#[verifier::external_body]
pub(crate) fn async_file_dialog_set_file_name(d: rfd::AsyncFileDialog, name: String) -> (r: rfd::AsyncFileDialog)
    ensures
        async_file_dialog_filters(r) == async_file_dialog_filters(d),
        async_file_dialog_directory(r) == async_file_dialog_directory(d),
        async_file_dialog_file_name(r) == Some(name@),
        async_file_dialog_title(r) == async_file_dialog_title(d),
{
    d.set_file_name(name)
}

/// Relies on `rfd::AsyncFileDialog::set_title`: sets the title, keeps the rest.
#[verifier::external_body]
pub(crate) fn async_file_dialog_set_title(d: rfd::AsyncFileDialog, title: String) -> (r: rfd::AsyncFileDialog)
    ensures
        async_file_dialog_filters(r) == async_file_dialog_filters(d),
        async_file_dialog_directory(r) == async_file_dialog_directory(d),
        async_file_dialog_file_name(r) == async_file_dialog_file_name(d),
        async_file_dialog_title(r) == Some(title@),
{
    d.set_title(title)
}

/// Relies on `rfd::MessageDialog::new`: level `Info`, buttons `Ok`, empty title and
/// description (the fields' defaults).
#[verifier::external_body]
pub(crate) fn message_dialog_new() -> (r: rfd::MessageDialog)
    ensures
        message_dialog_level(r) == rfd::MessageLevel::Info,
        message_dialog_buttons(r) == rfd::MessageButtons::Ok,
        message_dialog_title(r) == Seq::<char>::empty(),
        message_dialog_description(r) == Seq::<char>::empty(),
{
    rfd::MessageDialog::new()
}

/// Relies on `rfd::MessageDialog::set_level`: sets the level, keeps the rest.
#[verifier::external_body]
pub(crate) fn message_dialog_set_level(d: rfd::MessageDialog, level: rfd::MessageLevel) -> (r: rfd::MessageDialog)
    ensures
        message_dialog_level(r) == level,
        message_dialog_buttons(r) == message_dialog_buttons(d),
        message_dialog_title(r) == message_dialog_title(d),
        message_dialog_description(r) == message_dialog_description(d),
{
    d.set_level(level)
}

/// Relies on `rfd::MessageDialog::set_title`: sets the title, keeps the rest.
#[verifier::external_body]
pub(crate) fn message_dialog_set_title(d: rfd::MessageDialog, title: String) -> (r: rfd::MessageDialog)
    ensures
        message_dialog_level(r) == message_dialog_level(d),
        message_dialog_buttons(r) == message_dialog_buttons(d),
        message_dialog_title(r) == title@,
        message_dialog_description(r) == message_dialog_description(d),
{
    d.set_title(title)
}

/// Relies on `rfd::MessageDialog::set_description`: sets the description, keeps the rest.
#[verifier::external_body]
pub(crate) fn message_dialog_set_description(d: rfd::MessageDialog, text: String) -> (r: rfd::MessageDialog)
    ensures
        message_dialog_level(r) == message_dialog_level(d),
        message_dialog_buttons(r) == message_dialog_buttons(d),
        message_dialog_title(r) == message_dialog_title(d),
        message_dialog_description(r) == text@,
{
    d.set_description(text)
}

/// Relies on `rfd::MessageDialog::set_buttons`: sets the button set, keeps the rest.
#[verifier::external_body]
pub(crate) fn message_dialog_set_buttons(d: rfd::MessageDialog, buttons: rfd::MessageButtons) -> (r: rfd::MessageDialog)
    ensures
        message_dialog_level(r) == message_dialog_level(d),
        message_dialog_buttons(r) == buttons,
        message_dialog_title(r) == message_dialog_title(d),
        message_dialog_description(r) == message_dialog_description(d),
{
    d.set_buttons(buttons)
}

/// Relies on `rfd::AsyncMessageDialog::new`: level `Info`, buttons `Ok`, empty title and
/// description (the fields' defaults).
#[verifier::external_body]
pub(crate) fn async_message_dialog_new() -> (r: rfd::AsyncMessageDialog)
    ensures
        async_message_dialog_level(r) == rfd::MessageLevel::Info,
        async_message_dialog_buttons(r) == rfd::MessageButtons::Ok,
        async_message_dialog_title(r) == Seq::<char>::empty(),
        async_message_dialog_description(r) == Seq::<char>::empty(),
{
    rfd::AsyncMessageDialog::new()
}

/// Relies on `rfd::AsyncMessageDialog::set_level`: sets the level, keeps the rest.
#[verifier::external_body]
pub(crate) fn async_message_dialog_set_level(d: rfd::AsyncMessageDialog, level: rfd::MessageLevel) -> (r: rfd::AsyncMessageDialog)
    ensures
        async_message_dialog_level(r) == level,
        async_message_dialog_buttons(r) == async_message_dialog_buttons(d),
        async_message_dialog_title(r) == async_message_dialog_title(d),
        async_message_dialog_description(r) == async_message_dialog_description(d),
{
    d.set_level(level)
}

/// Relies on `rfd::AsyncMessageDialog::set_title`: sets the title, keeps the rest.
#[verifier::external_body]
pub(crate) fn async_message_dialog_set_title(d: rfd::AsyncMessageDialog, title: String) -> (r: rfd::AsyncMessageDialog)
    ensures
        async_message_dialog_level(r) == async_message_dialog_level(d),
        async_message_dialog_buttons(r) == async_message_dialog_buttons(d),
        async_message_dialog_title(r) == title@,
        async_message_dialog_description(r) == async_message_dialog_description(d),
{
    d.set_title(title)
}

/// Relies on `rfd::AsyncMessageDialog::set_description`: sets the description, keeps the rest.
#[verifier::external_body]
pub(crate) fn async_message_dialog_set_description(d: rfd::AsyncMessageDialog, text: String) -> (r: rfd::AsyncMessageDialog)
    ensures
        async_message_dialog_level(r) == async_message_dialog_level(d),
        async_message_dialog_buttons(r) == async_message_dialog_buttons(d),
        async_message_dialog_title(r) == async_message_dialog_title(d),
        async_message_dialog_description(r) == text@,
{
    d.set_description(text)
}

/// Relies on `rfd::AsyncMessageDialog::set_buttons`: sets the button set, keeps the rest.
#[verifier::external_body]
pub(crate) fn async_message_dialog_set_buttons(d: rfd::AsyncMessageDialog, buttons: rfd::MessageButtons) -> (r: rfd::AsyncMessageDialog)
    ensures
        async_message_dialog_level(r) == async_message_dialog_level(d),
        async_message_dialog_buttons(r) == buttons,
        async_message_dialog_title(r) == async_message_dialog_title(d),
        async_message_dialog_description(r) == async_message_dialog_description(d),
{
    d.set_buttons(buttons)
}

/// Relies on rfd's `From<PathBuf> for FileHandle`: a handle on the path
/// `path`, made without touching the file system; a path made from text
/// reads back as that text.
#[verifier::external_body]
pub(crate) fn file_handle_from_text(path: String) -> (r: rfd::FileHandle)
    ensures
        handle_path_text(r) == Some(path@),
{
    rfd::FileHandle::from(std::path::PathBuf::from(path))
}

/// Relies on `rfd::FileHandle::path`, read through `Path::to_str`: the
/// handle's path as text, or `None` when it is not valid unicode.
#[verifier::external_body]
pub(crate) fn file_handle_path_text(h: &rfd::FileHandle) -> (r: Option<String>)
    ensures
        r matches Some(t) ==> handle_path_text(*h) == Some(t@),
        r is None ==> handle_path_text(*h) is None,
{
    h.path().to_str().map(String::from)
}

/// Relies on `rfd::FileHandle::file_name`: the last component of the path,
/// or the empty string when there is none or it is not valid unicode.
#[verifier::external_body]
pub(crate) fn file_handle_file_name(h: &rfd::FileHandle) -> (r: String)
    ensures
        r@ == handle_file_name(*h),
{
    h.file_name()
}

} // verus!
