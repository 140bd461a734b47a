//! A handle on a path that a dialog resolved, or that a caller wrapped.
use vstd::prelude::*;
use crate::error::DialogError;
use crate::native::{
    file_handle_file_name, file_handle_from_text, file_handle_path_text, handle_file_name,
    handle_path_text,
};
use crate::paths::{path_result, text_of, text_view};

verus! {

/// A handle on a file-system path. It is immutable once made; its path is
/// rendered as text on each request, and each read of the file's contents is
/// a fresh attempt by the host.
pub struct PathHandle {
    native: rfd::FileHandle,
}

impl View for PathHandle {
    /// The path as text, or `None` when it is not valid text.
    type V = Option<Seq<char>>;

    open spec fn view(&self) -> Option<Seq<char>> {
        handle_path_text(self.native_spec())
    }
}

impl PathHandle {
    /// The native handle this handle wraps.
    pub closed spec fn native_spec(&self) -> rfd::FileHandle {
        self.native
    }

    /// A handle on `path`, made without touching the file system.
    pub fn wrap(path: String) -> (r: PathHandle)
        ensures
            r@ == Some(path@),
    {
        PathHandle { native: file_handle_from_text(path) }
    }

    /// A handle on the native handle that a dialog resolved.
    pub fn from_native(native: rfd::FileHandle) -> (r: PathHandle)
        ensures
            r.native_spec() == native,
            r@ == handle_path_text(native),
    {
        PathHandle { native }
    }

    /// The last component of the path, by the native library's rule: the
    /// empty string when there is none or it is not valid text. This rule is
    /// not necessarily the host runtime's own; callers that need consistency
    /// should split the result of [`PathHandle::path`] themselves.
    pub fn file_name(&self) -> (r: String)
        ensures
            r@ == handle_file_name(self.native_spec()),
    {
        file_handle_file_name(&self.native)
    }

    /// The path as text, or `InvalidEncoding` when it is not valid text.
    pub fn path(&self) -> (r: Result<String, DialogError>)
        ensures
            text_view(r) == text_of(self@),
    {
        path_result(file_handle_path_text(&self.native))
    }

    /// The path as text, as [`PathHandle::path`] gives it.
    pub fn to_string(&self) -> (r: Result<String, DialogError>)
        ensures
            text_view(r) == text_of(self@),
    {
        self.path()
    }

    /// The native handle, for the host to read the file through.
    pub fn native(&self) -> (r: &rfd::FileHandle)
        ensures
            *r == self.native_spec(),
    {
        &self.native
    }
}

/// A handle wrapped from text gives exactly that text back as its path:
/// `h` is any handle in the state that [`PathHandle::wrap`] leaves for `text`.
pub proof fn lemma_wrap_path_round_trip(h: PathHandle, text: String)
    requires
        h@ == Some(text@),
    ensures
        text_of(h@) == Ok::<Seq<char>, DialogError>(text@),
{
}

/// Wraps each native handle that a dialog resolved, keeping all of them in
/// order: `None` when the user cancelled.
pub fn handles_result(picked: Option<Vec<rfd::FileHandle>>) -> (r: Option<Vec<PathHandle>>)
    ensures
        r.is_some() == picked.is_some(),
        r matches Some(hs) ==> {
            &&& hs@.len() == picked.unwrap()@.len()
            &&& forall|i: int|
                0 <= i < hs@.len() ==> (#[trigger] hs@[i]).native_spec() == picked.unwrap()@[i]
        },
{
    match picked {
        None => None,
        Some(mut natives) => {
            let ghost all = natives@;
            let mut handles: Vec<PathHandle> = Vec::new();
            while natives.len() > 0
                invariant
                    picked.unwrap()@ == all,
                    handles@.len() + natives@.len() == all.len(),
                    natives@ == all.subrange(handles@.len() as int, all.len() as int),
                    forall|i: int|
                        0 <= i < handles@.len() ==> (#[trigger] handles@[i]).native_spec() == all[i],
                decreases natives@.len(),
            {
                let native = natives.remove(0);
                handles.push(PathHandle::from_native(native));
            }
            Some(handles)
        },
    }
}

/// Wraps the native handle that a dialog resolved: `None` when the user
/// cancelled.
pub fn handle_result(picked: Option<rfd::FileHandle>) -> (r: Option<PathHandle>)
    ensures
        r.is_some() == picked.is_some(),
        r matches Some(h) ==> h.native_spec() == picked.unwrap(),
{
    match picked {
        None => None,
        Some(native) => Some(PathHandle::from_native(native)),
    }
}

} // verus!
