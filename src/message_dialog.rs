//! Message box builders, in a blocking and a suspending variant.
use vstd::prelude::*;
use crate::builder::{outcome, take_native};
use crate::dialog_buttons::{native_buttons, DialogButtons};
use crate::dialog_level::{native_level, DialogLevel};
use crate::error::DialogError;
use crate::native::{
    async_message_config, async_message_dialog_new, async_message_dialog_set_buttons,
    async_message_dialog_set_description, async_message_dialog_set_level,
    async_message_dialog_set_title, default_message_config, message_config, message_dialog_new,
    message_dialog_set_buttons, message_dialog_set_description, message_dialog_set_level,
    message_dialog_set_title, MessageConfig,
};

verus! {

/// One configuration call of a message box builder.
pub enum MessageSetting {
    /// The severity.
    Level(DialogLevel),
    /// The window title.
    Title(Seq<char>),
    /// The message text.
    Description(Seq<char>),
    /// The buttons shown.
    Buttons(DialogButtons),
}

/// `true` when the user chose the affirmative button (`Ok` or `Yes`).
pub open spec fn is_affirmative(answer: rfd::MessageDialogResult) -> bool {
    answer is Ok || answer is Yes
}

/// The answer a message box reports: `true` when the user chose the
/// affirmative button, `false` for any other button and when the window was
/// closed.
pub fn answer(result: &rfd::MessageDialogResult) -> (r: bool)
    ensures
        r == is_affirmative(*result),
{
    match result {
        rfd::MessageDialogResult::Ok => true,
        rfd::MessageDialogResult::Yes => true,
        _ => false,
    }
}

/// The settings after folding `s` into `c`.
pub open spec fn apply_message(c: MessageConfig, s: MessageSetting) -> MessageConfig {
    match s {
        MessageSetting::Level(level) => MessageConfig { level: native_level(level), ..c },
        MessageSetting::Title(title) => MessageConfig { title: title, ..c },
        MessageSetting::Description(text) => MessageConfig { description: text, ..c },
        MessageSetting::Buttons(buttons) => MessageConfig { buttons: native_buttons(buttons), ..c },
    }
}

/// The state of a builder in state `v` after a configuration call with
/// setting `s`: folded in while usable, unchanged once exhausted.
pub open spec fn message_configured(v: Option<MessageConfig>, s: MessageSetting) -> Option<MessageConfig> {
    match v {
        Some(c) => Some(apply_message(c, s)),
        None => None,
    }
}

/// The state after the configuration calls `ss`, issued in order.
pub open spec fn message_configured_all(v: Option<MessageConfig>, ss: Seq<MessageSetting>) -> Option<
    MessageConfig,
>
    decreases ss.len(),
{
    if ss.len() == 0 {
        v
    } else {
        message_configured(message_configured_all(v, ss.drop_last()), ss.last())
    }
}

/// The native level that the last level among `ss` leaves, `Info` if none.
pub open spec fn last_level(ss: Seq<MessageSetting>) -> rfd::MessageLevel
    decreases ss.len(),
{
    if ss.len() == 0 {
        rfd::MessageLevel::Info
    } else {
        match ss.last() {
            MessageSetting::Level(level) => native_level(level),
            _ => last_level(ss.drop_last()),
        }
    }
}

/// The native buttons that the last button set among `ss` leaves, `Ok` if
/// none.
pub open spec fn last_buttons(ss: Seq<MessageSetting>) -> rfd::MessageButtons
    decreases ss.len(),
{
    if ss.len() == 0 {
        rfd::MessageButtons::Ok
    } else {
        match ss.last() {
            MessageSetting::Buttons(buttons) => native_buttons(buttons),
            _ => last_buttons(ss.drop_last()),
        }
    }
}

/// The last title among `ss`, empty if none.
pub open spec fn last_message_title(ss: Seq<MessageSetting>) -> Seq<char>
    decreases ss.len(),
{
    if ss.len() == 0 {
        Seq::empty()
    } else {
        match ss.last() {
            MessageSetting::Title(title) => title,
            _ => last_message_title(ss.drop_last()),
        }
    }
}

/// The last description among `ss`, empty if none.
pub open spec fn last_description(ss: Seq<MessageSetting>) -> Seq<char>
    decreases ss.len(),
{
    if ss.len() == 0 {
        Seq::empty()
    } else {
        match ss.last() {
            MessageSetting::Description(text) => text,
            _ => last_description(ss.drop_last()),
        }
    }
}

/// Once a terminal step has consumed a message box builder, every later
/// configuration call and terminal step fails with `AlreadyConsumed` and
/// leaves the builder exhausted.
pub proof fn lemma_message_consumed_rejects_all(s: MessageSetting)
    ensures
        message_configured(None, s) == None::<MessageConfig>,
        outcome(None::<MessageConfig>) == Err::<(), DialogError>(DialogError::AlreadyConsumed),
{
}

/// Configuration calls issued on a new message box builder reach its native
/// box in the order issued: the builder stays usable and the last level,
/// buttons, title and description win.
pub proof fn lemma_message_settings_in_issue_order(ss: Seq<MessageSetting>)
    ensures
        message_configured_all(Some(default_message_config()), ss) == Some(
            MessageConfig {
                level: last_level(ss),
                buttons: last_buttons(ss),
                title: last_message_title(ss),
                description: last_description(ss),
            },
        ),
    decreases ss.len(),
{
    if ss.len() > 0 {
        lemma_message_settings_in_issue_order(ss.drop_last());
    }
}

/// A message box builder that blocks the caller while the box is open.
///
/// Configure it with any number of calls, then consume it with
/// [`MessageDialogBuilder::consume`] and show the native box it returns. A
/// consumed builder rejects every further call with `AlreadyConsumed`.
pub struct MessageDialogBuilder {
    native: Option<rfd::MessageDialog>,
}

impl View for MessageDialogBuilder {
    /// The settings the native box holds while the builder is usable; `None`
    /// once it is consumed.
    type V = Option<MessageConfig>;

    open spec fn view(&self) -> Option<MessageConfig> {
        match self.native_spec() {
            Some(d) => Some(message_config(d)),
            None => None,
        }
    }
}

impl MessageDialogBuilder {
    /// The native box the builder holds, `None` once consumed.
    pub closed spec fn native_spec(&self) -> Option<rfd::MessageDialog> {
        self.native
    }

    /// A usable builder with no settings: level `Info`, buttons `Ok`, empty
    /// title and description.
    pub fn new() -> (r: MessageDialogBuilder)
        ensures
            r@ == Some(default_message_config()),
    {
        MessageDialogBuilder { native: Some(message_dialog_new()) }
    }

    /// `true` while no terminal action has consumed the builder.
    pub fn is_usable(&self) -> (r: bool)
        ensures
            r == self@ is Some,
    {
        self.native.is_some()
    }

    /// Sets the severity, which decides the icon shown.
    pub fn set_level(&mut self, level: DialogLevel) -> (r: Result<(), DialogError>)
        ensures
            final(self)@ == message_configured(old(self)@, MessageSetting::Level(level)),
            r == outcome(old(self)@),
    {
        match take_native(&mut self.native) {
            Ok(d) => {
                self.native = Some(message_dialog_set_level(d, level.to_rfd_t()));
                Ok(())
            },
            Err(e) => Err(e),
        }
    }

    /// Sets the window title.
    pub fn set_title(&mut self, title: String) -> (r: Result<(), DialogError>)
        ensures
            final(self)@ == message_configured(old(self)@, MessageSetting::Title(title@)),
            r == outcome(old(self)@),
    {
        match take_native(&mut self.native) {
            Ok(d) => {
                self.native = Some(message_dialog_set_title(d, title));
                Ok(())
            },
            Err(e) => Err(e),
        }
    }

    /// Sets the message text.
    pub fn set_description(&mut self, description: String) -> (r: Result<(), DialogError>)
        ensures
            final(self)@ == message_configured(old(self)@, MessageSetting::Description(description@)),
            r == outcome(old(self)@),
    {
        match take_native(&mut self.native) {
            Ok(d) => {
                self.native = Some(message_dialog_set_description(d, description));
                Ok(())
            },
            Err(e) => Err(e),
        }
    }

    /// Sets the buttons shown.
    pub fn set_buttons(&mut self, buttons: DialogButtons) -> (r: Result<(), DialogError>)
        ensures
            final(self)@ == message_configured(old(self)@, MessageSetting::Buttons(buttons)),
            r == outcome(old(self)@),
    {
        match take_native(&mut self.native) {
            Ok(d) => {
                self.native = Some(message_dialog_set_buttons(d, buttons.to_rfd_t()));
                Ok(())
            },
            Err(e) => Err(e),
        }
    }

    /// The terminal step: hands out the configured native dialog, to be
    /// shown once, and leaves the builder exhausted for good.
    pub fn consume(&mut self) -> (r: Result<rfd::MessageDialog, DialogError>)
        ensures
            final(self).native_spec() is None,
            r == match old(self).native_spec() {
                Some(d) => Ok::<rfd::MessageDialog, DialogError>(d),
                None => Err(DialogError::AlreadyConsumed),
            },
    {
        take_native(&mut self.native)
    }
}

/// A message box builder whose terminal action suspends the caller instead
/// of blocking it. The terminal step takes the native box at once, before any
/// suspension, so a second terminal action on the same builder fails with
/// `AlreadyConsumed` even while the first is still pending.
pub struct AsyncMessageDialogBuilder {
    native: Option<rfd::AsyncMessageDialog>,
}

impl View for AsyncMessageDialogBuilder {
    /// The settings the native box holds while the builder is usable; `None`
    /// once it is consumed.
    type V = Option<MessageConfig>;

    open spec fn view(&self) -> Option<MessageConfig> {
        match self.native_spec() {
            Some(d) => Some(async_message_config(d)),
            None => None,
        }
    }
}

impl AsyncMessageDialogBuilder {
    /// The native box the builder holds, `None` once consumed.
    pub closed spec fn native_spec(&self) -> Option<rfd::AsyncMessageDialog> {
        self.native
    }

    /// A usable builder with no settings: level `Info`, buttons `Ok`, empty
    /// title and description.
    pub fn new() -> (r: AsyncMessageDialogBuilder)
        ensures
            r@ == Some(default_message_config()),
    {
        AsyncMessageDialogBuilder { native: Some(async_message_dialog_new()) }
    }

    /// `true` while no terminal action has consumed the builder.
    pub fn is_usable(&self) -> (r: bool)
        ensures
            r == self@ is Some,
    {
        self.native.is_some()
    }

    /// Sets the severity, which decides the icon shown.
    pub fn set_level(&mut self, level: DialogLevel) -> (r: Result<(), DialogError>)
        ensures
            final(self)@ == message_configured(old(self)@, MessageSetting::Level(level)),
            r == outcome(old(self)@),
    {
        match take_native(&mut self.native) {
            Ok(d) => {
                self.native = Some(async_message_dialog_set_level(d, level.to_rfd_t()));
                Ok(())
            },
            Err(e) => Err(e),
        }
    }

    /// Sets the window title.
    pub fn set_title(&mut self, title: String) -> (r: Result<(), DialogError>)
        ensures
            final(self)@ == message_configured(old(self)@, MessageSetting::Title(title@)),
            r == outcome(old(self)@),
    {
        match take_native(&mut self.native) {
            Ok(d) => {
                self.native = Some(async_message_dialog_set_title(d, title));
                Ok(())
            },
            Err(e) => Err(e),
        }
    }

    /// Sets the message text.
    pub fn set_description(&mut self, description: String) -> (r: Result<(), DialogError>)
        ensures
            final(self)@ == message_configured(old(self)@, MessageSetting::Description(description@)),
            r == outcome(old(self)@),
    {
        match take_native(&mut self.native) {
            Ok(d) => {
                self.native = Some(async_message_dialog_set_description(d, description));
                Ok(())
            },
            Err(e) => Err(e),
        }
    }

    /// Sets the buttons shown.
    pub fn set_buttons(&mut self, buttons: DialogButtons) -> (r: Result<(), DialogError>)
        ensures
            final(self)@ == message_configured(old(self)@, MessageSetting::Buttons(buttons)),
            r == outcome(old(self)@),
    {
        match take_native(&mut self.native) {
            Ok(d) => {
                self.native = Some(async_message_dialog_set_buttons(d, buttons.to_rfd_t()));
                Ok(())
            },
            Err(e) => Err(e),
        }
    }

    /// The terminal step: hands out the configured native dialog, to be
    /// shown once, and leaves the builder exhausted for good.
    pub fn consume(&mut self) -> (r: Result<rfd::AsyncMessageDialog, DialogError>)
        ensures
            final(self).native_spec() is None,
            r == match old(self).native_spec() {
                Some(d) => Ok::<rfd::AsyncMessageDialog, DialogError>(d),
                None => Err(DialogError::AlreadyConsumed),
            },
    {
        take_native(&mut self.native)
    }
}

} // verus!
