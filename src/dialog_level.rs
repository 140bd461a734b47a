use vstd::prelude::*;

verus! {

/// The severity of a message dialog. It decides the icon that is shown and
/// possibly other platform-specific defaults. At the host boundary each
/// variant is the tag of the same name.
#[derive(Clone, Copy, Debug, PartialEq, Eq, Structural)]
pub enum DialogLevel {
    Info,
    Warning,
    Error,
}

/// The native level that each level maps to.
pub open spec fn native_level(l: DialogLevel) -> rfd::MessageLevel {
    match l {
        DialogLevel::Info => rfd::MessageLevel::Info,
        DialogLevel::Warning => rfd::MessageLevel::Warning,
        DialogLevel::Error => rfd::MessageLevel::Error,
    }
}

/// The level that a native level stands for.
pub open spec fn level_of_native(n: rfd::MessageLevel) -> DialogLevel {
    match n {
        rfd::MessageLevel::Info => DialogLevel::Info,
        rfd::MessageLevel::Warning => DialogLevel::Warning,
        rfd::MessageLevel::Error => DialogLevel::Error,
    }
}

impl DialogLevel {
    /// The native level with the same meaning.
    pub fn to_rfd_t(&self) -> (r: rfd::MessageLevel)
        ensures
            r == native_level(*self),
    {
        match self {
            DialogLevel::Info => rfd::MessageLevel::Info,
            DialogLevel::Warning => rfd::MessageLevel::Warning,
            DialogLevel::Error => rfd::MessageLevel::Error,
        }
    }
}

/// The level mapping is a bijection: distinct levels map to distinct native
/// levels, each level comes back unchanged, and every native level is reached.
pub proof fn lemma_level_bijection(a: DialogLevel, b: DialogLevel, n: rfd::MessageLevel)
    ensures
        native_level(a) == native_level(b) <==> a == b,
        level_of_native(native_level(a)) == a,
        native_level(level_of_native(n)) == n,
{
}

} // verus!
