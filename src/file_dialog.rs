//! File open/save dialog builders, in a blocking and a suspending variant.
use vstd::prelude::*;
use crate::builder::{outcome, take_native};
use crate::error::DialogError;
use crate::native::{
    async_file_config, async_file_dialog_add_filter, async_file_dialog_new,
    async_file_dialog_set_directory, async_file_dialog_set_file_name, async_file_dialog_set_title,
    default_file_config, directory_for, file_config, file_dialog_add_filter, file_dialog_new,
    file_dialog_set_directory, file_dialog_set_file_name, file_dialog_set_title, texts, FileConfig,
};

verus! {

/// One configuration call of a file dialog builder.
pub enum FileSetting {
    /// A filter: its name, shown to the user, and the extensions it admits.
    Filter(Seq<char>, Seq<Seq<char>>),
    /// The directory the dialog opens in.
    Directory(Seq<char>),
    /// The file name the dialog proposes.
    FileName(Seq<char>),
    /// The window title.
    Title(Seq<char>),
}

/// The settings after folding `s` into `c`.
pub open spec fn apply_file(c: FileConfig, s: FileSetting) -> FileConfig {
    match s {
        FileSetting::Filter(name, exts) => FileConfig { filters: c.filters.push((name, exts)), ..c },
        FileSetting::Directory(dir) => FileConfig { directory: directory_for(dir), ..c },
        FileSetting::FileName(name) => FileConfig { file_name: Some(name), ..c },
        FileSetting::Title(title) => FileConfig { title: Some(title), ..c },
    }
}

/// The state of a builder in state `v` after a configuration call with
/// setting `s`: folded in while usable, unchanged once exhausted.
pub open spec fn file_configured(v: Option<FileConfig>, s: FileSetting) -> Option<FileConfig> {
    match v {
        Some(c) => Some(apply_file(c, s)),
        None => None,
    }
}

/// The state after the configuration calls `ss`, issued in order.
pub open spec fn file_configured_all(v: Option<FileConfig>, ss: Seq<FileSetting>) -> Option<FileConfig>
    decreases ss.len(),
{
    if ss.len() == 0 {
        v
    } else {
        file_configured(file_configured_all(v, ss.drop_last()), ss.last())
    }
}

/// The filters among `ss`, in the order issued.
pub open spec fn filters_in(ss: Seq<FileSetting>) -> Seq<(Seq<char>, Seq<Seq<char>>)>
    decreases ss.len(),
{
    if ss.len() == 0 {
        Seq::empty()
    } else {
        match ss.last() {
            FileSetting::Filter(name, exts) => filters_in(ss.drop_last()).push((name, exts)),
            _ => filters_in(ss.drop_last()),
        }
    }
}

/// The directory that the last directory setting among `ss` leaves.
pub open spec fn last_directory(ss: Seq<FileSetting>) -> Option<Seq<char>>
    decreases ss.len(),
{
    if ss.len() == 0 {
        None
    } else {
        match ss.last() {
            FileSetting::Directory(dir) => directory_for(dir),
            _ => last_directory(ss.drop_last()),
        }
    }
}

/// The last file name among `ss`.
pub open spec fn last_file_name(ss: Seq<FileSetting>) -> Option<Seq<char>>
    decreases ss.len(),
{
    if ss.len() == 0 {
        None
    } else {
        match ss.last() {
            FileSetting::FileName(name) => Some(name),
            _ => last_file_name(ss.drop_last()),
        }
    }
}

/// The last title among `ss`.
pub open spec fn last_title(ss: Seq<FileSetting>) -> Option<Seq<char>>
    decreases ss.len(),
{
    if ss.len() == 0 {
        None
    } else {
        match ss.last() {
            FileSetting::Title(title) => Some(title),
            _ => last_title(ss.drop_last()),
        }
    }
}

/// Once a terminal step has consumed a file dialog builder, every later
/// configuration call and terminal step fails with `AlreadyConsumed` and
/// leaves the builder exhausted.
pub proof fn lemma_file_consumed_rejects_all(s: FileSetting)
    ensures
        file_configured(None, s) == None::<FileConfig>,
        outcome(None::<FileConfig>) == Err::<(), DialogError>(DialogError::AlreadyConsumed),
{
}

/// Configuration calls issued on a new file dialog builder reach its native
/// dialog in the order issued: the builder stays usable, the filters are
/// appended in order, and the last directory, file name and title win.
pub proof fn lemma_file_settings_in_issue_order(ss: Seq<FileSetting>)
    ensures
        file_configured_all(Some(default_file_config()), ss) == Some(
            FileConfig {
                filters: filters_in(ss),
                directory: last_directory(ss),
                file_name: last_file_name(ss),
                title: last_title(ss),
            },
        ),
    decreases ss.len(),
{
    if ss.len() > 0 {
        lemma_file_settings_in_issue_order(ss.drop_last());
    }
}

/// A file dialog builder that blocks the caller while the dialog is open.
///
/// Configure it with any number of calls, then consume it with
/// [`FileDialogBuilder::consume`] and show the native dialog it returns
/// (pick one or several files or folders, or save a file). A consumed
/// builder rejects every further call with `AlreadyConsumed`.
pub struct FileDialogBuilder {
    native: Option<rfd::FileDialog>,
}

impl View for FileDialogBuilder {
    /// The settings the native dialog holds while the builder is usable;
    /// `None` once it is consumed.
    type V = Option<FileConfig>;

    open spec fn view(&self) -> Option<FileConfig> {
        match self.native_spec() {
            Some(d) => Some(file_config(d)),
            None => None,
        }
    }
}

impl FileDialogBuilder {
    /// The native dialog the builder holds, `None` once consumed.
    pub closed spec fn native_spec(&self) -> Option<rfd::FileDialog> {
        self.native
    }

    /// A usable builder with no settings.
    pub fn new() -> (r: FileDialogBuilder)
        ensures
            r@ == Some(default_file_config()),
    {
        FileDialogBuilder { native: Some(file_dialog_new()) }
    }

    /// `true` while no terminal action has consumed the builder.
    pub fn is_usable(&self) -> (r: bool)
        ensures
            r == self@ is Some,
    {
        self.native.is_some()
    }

    /// Adds a filter: a name shown to the user and the extensions it admits.
    pub fn add_filter(&mut self, name: String, extensions: Vec<String>) -> (r: Result<(), DialogError>)
        ensures
            final(self)@ == file_configured(old(self)@, FileSetting::Filter(name@, texts(extensions@))),
            r == outcome(old(self)@),
    {
        match take_native(&mut self.native) {
            Ok(d) => {
                self.native = Some(file_dialog_add_filter(d, name, extensions));
                Ok(())
            },
            Err(e) => Err(e),
        }
    }

    /// Sets the directory the dialog opens in.
    pub fn set_directory(&mut self, dir: String) -> (r: Result<(), DialogError>)
        ensures
            final(self)@ == file_configured(old(self)@, FileSetting::Directory(dir@)),
            r == outcome(old(self)@),
    {
        match take_native(&mut self.native) {
            Ok(d) => {
                self.native = Some(file_dialog_set_directory(d, dir));
                Ok(())
            },
            Err(e) => Err(e),
        }
    }

    /// Sets the file name the dialog proposes.
    pub fn set_file_name(&mut self, name: String) -> (r: Result<(), DialogError>)
        ensures
            final(self)@ == file_configured(old(self)@, FileSetting::FileName(name@)),
            r == outcome(old(self)@),
    {
        match take_native(&mut self.native) {
            Ok(d) => {
                self.native = Some(file_dialog_set_file_name(d, name));
                Ok(())
            },
            Err(e) => Err(e),
        }
    }

    /// Sets the window title.
    pub fn set_title(&mut self, title: String) -> (r: Result<(), DialogError>)
        ensures
            final(self)@ == file_configured(old(self)@, FileSetting::Title(title@)),
            r == outcome(old(self)@),
    {
        match take_native(&mut self.native) {
            Ok(d) => {
                self.native = Some(file_dialog_set_title(d, title));
                Ok(())
            },
            Err(e) => Err(e),
        }
    }

    /// The terminal step: hands out the configured native dialog, to be
    /// shown once, and leaves the builder exhausted for good.
    pub fn consume(&mut self) -> (r: Result<rfd::FileDialog, DialogError>)
        ensures
            final(self).native_spec() is None,
            r == match old(self).native_spec() {
                Some(d) => Ok::<rfd::FileDialog, DialogError>(d),
                None => Err(DialogError::AlreadyConsumed),
            },
    {
        take_native(&mut self.native)
    }
}

/// A file dialog builder whose terminal actions suspend the caller instead
/// of blocking it. The terminal step takes the native dialog at once, before
/// any suspension, so a second terminal action on the same builder fails
/// with `AlreadyConsumed` even while the first is still pending.
pub struct AsyncFileDialogBuilder {
    native: Option<rfd::AsyncFileDialog>,
}

impl View for AsyncFileDialogBuilder {
    /// The settings the native dialog holds while the builder is usable;
    /// `None` once it is consumed.
    type V = Option<FileConfig>;

    open spec fn view(&self) -> Option<FileConfig> {
        match self.native_spec() {
            Some(d) => Some(async_file_config(d)),
            None => None,
        }
    }
}

impl AsyncFileDialogBuilder {
    /// The native dialog the builder holds, `None` once consumed.
    pub closed spec fn native_spec(&self) -> Option<rfd::AsyncFileDialog> {
        self.native
    }

    /// A usable builder with no settings.
    pub fn new() -> (r: AsyncFileDialogBuilder)
        ensures
            r@ == Some(default_file_config()),
    {
        AsyncFileDialogBuilder { native: Some(async_file_dialog_new()) }
    }

    /// `true` while no terminal action has consumed the builder.
    pub fn is_usable(&self) -> (r: bool)
        ensures
            r == self@ is Some,
    {
        self.native.is_some()
    }

    /// Adds a filter: a name shown to the user and the extensions it admits.
    pub fn add_filter(&mut self, name: String, extensions: Vec<String>) -> (r: Result<(), DialogError>)
        ensures
            final(self)@ == file_configured(old(self)@, FileSetting::Filter(name@, texts(extensions@))),
            r == outcome(old(self)@),
    {
        match take_native(&mut self.native) {
            Ok(d) => {
                self.native = Some(async_file_dialog_add_filter(d, name, extensions));
                Ok(())
            },
            Err(e) => Err(e),
        }
    }

    /// Sets the directory the dialog opens in.
    pub fn set_directory(&mut self, dir: String) -> (r: Result<(), DialogError>)
        ensures
            final(self)@ == file_configured(old(self)@, FileSetting::Directory(dir@)),
            r == outcome(old(self)@),
    {
        match take_native(&mut self.native) {
            Ok(d) => {
                self.native = Some(async_file_dialog_set_directory(d, dir));
                Ok(())
            },
            Err(e) => Err(e),
        }
    }

    /// Sets the file name the dialog proposes.
    pub fn set_file_name(&mut self, name: String) -> (r: Result<(), DialogError>)
        ensures
            final(self)@ == file_configured(old(self)@, FileSetting::FileName(name@)),
            r == outcome(old(self)@),
    {
        match take_native(&mut self.native) {
            Ok(d) => {
                self.native = Some(async_file_dialog_set_file_name(d, name));
                Ok(())
            },
            Err(e) => Err(e),
        }
    }

    /// Sets the window title.
    pub fn set_title(&mut self, title: String) -> (r: Result<(), DialogError>)
        ensures
            final(self)@ == file_configured(old(self)@, FileSetting::Title(title@)),
            r == outcome(old(self)@),
    {
        match take_native(&mut self.native) {
            Ok(d) => {
                self.native = Some(async_file_dialog_set_title(d, title));
                Ok(())
            },
            Err(e) => Err(e),
        }
    }

    /// The terminal step: hands out the configured native dialog, to be
    /// shown once, and leaves the builder exhausted for good.
    pub fn consume(&mut self) -> (r: Result<rfd::AsyncFileDialog, DialogError>)
        ensures
            final(self).native_spec() is None,
            r == match old(self).native_spec() {
                Some(d) => Ok::<rfd::AsyncFileDialog, DialogError>(d),
                None => Err(DialogError::AlreadyConsumed),
            },
    {
        take_native(&mut self.native)
    }
}

} // verus!
