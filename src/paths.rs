//! Where a native path crosses into the public surface it is rendered as
//! text, and a path that is not valid text is reported as `InvalidEncoding`
//! rather than truncated or altered. A path that the host hands over here
//! has been read as `Some(text)`, or as `None` when it was not valid text.
use vstd::prelude::*;
use crate::error::DialogError;

verus! {

/// The text of a path as the public surface reports it.
pub open spec fn text_of(text: Option<Seq<char>>) -> Result<Seq<char>, DialogError> {
    match text {
        Some(t) => Ok(t),
        None => Err(DialogError::InvalidEncoding),
    }
}

/// The view of an optional string.
pub open spec fn opt_view(o: Option<String>) -> Option<Seq<char>> {
    match o {
        Some(s) => Some(s@),
        None => None,
    }
}

/// The view of a result that carries a string.
pub open spec fn text_view(r: Result<String, DialogError>) -> Result<Seq<char>, DialogError> {
    match r {
        Ok(s) => Ok(s@),
        Err(e) => Err(e),
    }
}

/// `true` when every path of `paths` was valid text.
pub open spec fn all_text(paths: Seq<Option<String>>) -> bool {
    forall|i: int| 0 <= i < paths.len() ==> (#[trigger] paths[i]).is_some()
}

/// Renders one path: its text, or `InvalidEncoding`.
pub fn path_result(text: Option<String>) -> (r: Result<String, DialogError>)
    ensures
        text_view(r) == text_of(opt_view(text)),
{
    match text {
        Some(t) => Ok(t),
        None => Err(DialogError::InvalidEncoding),
    }
}

/// The result of a dialog that picks one path: `Ok(None)` when the user
/// cancelled, else the path's text, or `InvalidEncoding`.
pub fn picked_path(picked: Option<Option<String>>) -> (r: Result<Option<String>, DialogError>)
    ensures
        r == match picked {
            None => Ok::<Option<String>, DialogError>(None),
            Some(None) => Err(DialogError::InvalidEncoding),
            Some(Some(t)) => Ok(Some(t)),
        },
{
    match picked {
        None => Ok(None),
        Some(Some(t)) => Ok(Some(t)),
        Some(None) => Err(DialogError::InvalidEncoding),
    }
}

/// The result of a dialog that picks several paths: `Ok(None)` when the user
/// cancelled, `InvalidEncoding` when any path is not valid text, and else
/// the texts of all paths, in order. No path is ever dropped.
pub fn picked_paths(picked: Option<Vec<Option<String>>>) -> (r: Result<
    Option<Vec<String>>,
    DialogError,
>)
    ensures
        picked.is_none() ==> r == Ok::<Option<Vec<String>>, DialogError>(None),
        picked.is_some() && !all_text(picked.unwrap()@) ==> r == Err::<
            Option<Vec<String>>,
            DialogError,
        >(DialogError::InvalidEncoding),
        picked.is_some() && all_text(picked.unwrap()@) ==> {
            &&& r.is_ok()
            &&& r.unwrap().is_some()
            &&& r.unwrap().unwrap()@.len() == picked.unwrap()@.len()
            &&& forall|i: int|
                0 <= i < picked.unwrap()@.len() ==> (#[trigger] r.unwrap().unwrap()@[i])@
                    == picked.unwrap()@[i].unwrap()@
        },
{
    match picked {
        None => Ok(None),
        Some(paths) => {
            let mut texts: Vec<String> = Vec::new();
            let mut i: usize = 0;
            while i < paths.len()
                invariant
                    picked == Some(paths),
                    0 <= i <= paths@.len(),
                    texts@.len() == i,
                    forall|j: int| 0 <= j < i ==> (#[trigger] paths@[j]).is_some(),
                    forall|j: int| 0 <= j < i ==> (#[trigger] texts@[j])@ == paths@[j].unwrap()@,
                decreases paths@.len() - i,
            {
                match &paths[i] {
                    Some(t) => {
                        texts.push(t.clone());
                    },
                    None => {
                        assert(paths@[i as int].is_none());
                        return Err(DialogError::InvalidEncoding);
                    },
                }
                i = i + 1;
            }
            assert(all_text(paths@));
            Ok(Some(texts))
        },
    }
}

/// The result of a native call run under the abort-isolation boundary: its
/// value, or `NativePanic` when the call aborted (`None`), as reading a
/// handle that refers to a directory does.
pub fn contained<T>(outcome: Option<T>) -> (r: Result<T, DialogError>)
    ensures
        r == match outcome {
            Some(v) => Ok::<T, DialogError>(v),
            None => Err(DialogError::NativePanic),
        },
{
    match outcome {
        Some(v) => Ok(v),
        None => Err(DialogError::NativePanic),
    }
}

} // verus!
