use vstd::prelude::*;

verus! {

/// The set of buttons a message dialog shows. At the host boundary each
/// variant is the tag of the same name, `OkOnly` being
/// the tag `Ok`. The native library also offers
/// button sets with custom labels; they are not offered here.
#[derive(Clone, Copy, Debug, PartialEq, Eq, Structural)]
pub enum DialogButtons {
    OkOnly,
    OkCancel,
    YesNo,
}

/// The native button set that each button set maps to.
pub open spec fn native_buttons(b: DialogButtons) -> rfd::MessageButtons {
    match b {
        DialogButtons::OkOnly => rfd::MessageButtons::Ok,
        DialogButtons::OkCancel => rfd::MessageButtons::OkCancel,
        DialogButtons::YesNo => rfd::MessageButtons::YesNo,
    }
}

/// The button set that a native button set stands for, if it is one of those
/// offered here.
pub open spec fn buttons_of_native(n: rfd::MessageButtons) -> Option<DialogButtons> {
    match n {
        rfd::MessageButtons::Ok => Some(DialogButtons::OkOnly),
        rfd::MessageButtons::OkCancel => Some(DialogButtons::OkCancel),
        rfd::MessageButtons::YesNo => Some(DialogButtons::YesNo),
        _ => None,
    }
}

impl DialogButtons {
    /// The native button set with the same meaning.
    pub fn to_rfd_t(&self) -> (r: rfd::MessageButtons)
        ensures
            r == native_buttons(*self),
    {
        match self {
            DialogButtons::OkOnly => rfd::MessageButtons::Ok,
            DialogButtons::OkCancel => rfd::MessageButtons::OkCancel,
            DialogButtons::YesNo => rfd::MessageButtons::YesNo,
        }
    }
}

/// The button mapping is a bijection onto its image: distinct button sets map
/// to distinct native button sets, and each comes back unchanged.
pub proof fn lemma_buttons_bijection(a: DialogButtons, b: DialogButtons)
    ensures
        native_buttons(a) == native_buttons(b) <==> a == b,
        buttons_of_native(native_buttons(a)) == Some(a),
{
}

} // verus!
