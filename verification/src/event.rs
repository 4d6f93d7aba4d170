//! What happens to the store, and what the store asks of its caller.

use vstd::prelude::*;
use crate::model::{CommandView, ReplyView};

verus! {

/// Seconds after which the note of a copied code is cleared again.
pub const NOTE_SECONDS: u64 = 3;

/// How a request to the clipboard ended.
#[derive(Debug, Clone)]
pub enum ClipboardReply {
    /// The text is on the clipboard.
    Copied,
    /// The clipboard could not be reached; the text gives the reason.
    Unavailable(String),
    /// The clipboard did not take the text; the text gives the reason.
    Refused(String),
}

impl View for ClipboardReply {
    type V = ReplyView;

    open spec fn view(&self) -> ReplyView {
        match self {
            ClipboardReply::Copied => ReplyView::Copied,
            ClipboardReply::Unavailable(reason) => ReplyView::Unavailable(reason@),
            ClipboardReply::Refused(reason) => ReplyView::Refused(reason@),
        }
    }
}

/// An event: something the user did, a tick of the clock, or the answer to a
/// command. Where an event is about one tab, its last field is that tab's
/// index.
#[derive(Debug, Clone)]
pub enum Message {
    /// The user set the secret of a tab.
    SecretKeyChanged(String, usize),
    /// The user asked for another number of digits; the number is fixed.
    DigitsChanged(u8),
    /// The user asked for another period; the period is fixed.
    PeriodChanged(u64),
    /// Derive the code of the active tab anew.
    GenerateToken,
    /// The user asked for the code of a tab on the clipboard.
    CopyToClipboard(usize),
    /// The clipboard answered a request for a tab.
    CopyFinished(ClipboardReply, usize),
    /// About a second has passed.
    Tick,
    /// Clear the message of a tab.
    ClearMessage(usize),
    /// The user asked for a new tab.
    AddTab,
    /// The user closed a tab.
    RemoveTab(usize),
    /// The user picked a tab.
    SelectTab(usize),
    /// The user began to edit the name of a tab.
    RenameTabStarted(usize),
    /// The user typed the name of a tab.
    TabNameChanged(String, usize),
    /// The user finished editing the name of a tab.
    TabNameConfirmed(usize),
}

/// What the caller is asked to do after an event.
#[derive(Debug, Clone)]
pub enum Command {
    /// Nothing.
    Nothing,
    /// Put the text on the clipboard for the tab with this index, and
    /// report how it went as `Message::CopyFinished`.
    CopyText(String, usize),
    /// After this many seconds, send `Message::ClearMessage` for the tab
    /// with this index.
    ClearMessageAfter(u64, usize),
}

impl View for Command {
    type V = CommandView;

    open spec fn view(&self) -> CommandView {
        match self {
            Command::Nothing => CommandView::Nothing,
            Command::CopyText(text, idx) => CommandView::CopyText(text@, *idx as nat),
            Command::ClearMessageAfter(seconds, idx) => CommandView::ClearMessageAfter(
                *seconds as nat,
                *idx as nat,
            ),
        }
    }
}

} // verus!
