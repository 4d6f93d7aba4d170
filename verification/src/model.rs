//! What each event does to the tabs, stated on plain mathematical values.
//!
//! The executable store promises of every operation that it ends in the
//! state given here.

use vstd::prelude::*;
use crate::event::{ClipboardReply, Message, NOTE_SECONDS};
use crate::code::{code_at, empty_secret_text, is_decimal_digit, remaining_at};
use crate::store::{StateView, DIGITS, PERIOD};
use crate::tab::{NoticeView, TabView};
use crate::text::{decimal_digits, without_spaces};

verus! {

/// The note that tells of a code put on the clipboard.
pub open spec fn copied_text() -> Seq<char> {
    "Code copied to clipboard!"@
}

/// What the user reads in front of the reason why the clipboard could not
/// be reached.
pub open spec fn clipboard_unavailable_prefix() -> Seq<char> {
    "Failed to access clipboard: "@
}

/// What the user reads in front of the reason why the clipboard did not
/// take the code.
pub open spec fn clipboard_refused_prefix() -> Seq<char> {
    "Failed to copy to clipboard: "@
}

/// The name of the tab that is added as the `n`-th.
pub open spec fn tab_label(n: nat) -> Seq<char> {
    "Tab "@ + decimal_digits(n)
}

/// How a request to the clipboard ended, as plain values.
pub enum ReplyView {
    Copied,
    Unavailable(Seq<char>),
    Refused(Seq<char>),
}

/// What the caller is asked to do after an event, as plain values.
pub enum CommandView {
    Nothing,
    CopyText(Seq<char>, nat),
    ClearMessageAfter(nat, nat),
}

impl ReplyView {
    /// The notice that the reply leaves on a tab.
    pub open spec fn notice(self) -> NoticeView {
        match self {
            ReplyView::Copied => NoticeView::Info(copied_text()),
            ReplyView::Unavailable(reason) => NoticeView::Error(
                clipboard_unavailable_prefix() + reason,
            ),
            ReplyView::Refused(reason) => NoticeView::Error(clipboard_refused_prefix() + reason),
        }
    }
}

impl TabView {
    /// Whether the tab is in a state that the store keeps it in: the
    /// countdown within the period; and where there is a code, a secret
    /// behind it, at least one second left, and `DIGITS` decimal digits.
    pub open spec fn wf(self) -> bool {
        &&& self.time_remaining <= PERIOD
        &&& self.token matches Some(code) ==> {
            &&& self.secret_key.len() > 0
            &&& 1 <= self.time_remaining
            &&& code.len() == DIGITS
            &&& forall|i: int| 0 <= i < code.len() ==> is_decimal_digit(#[trigger] code[i])
        }
    }

    /// The tab with its countdown set for the moment `now`.
    pub open spec fn counted(self, now: nat) -> TabView {
        TabView { time_remaining: remaining_at(PERIOD as nat, now), ..self }
    }

    /// The tab after its code was derived anew at `now`: with an empty
    /// secret, no code and the request to enter one; else the code of the
    /// secret at `now`, its countdown, and no message.
    pub open spec fn regenerated(self, now: nat) -> TabView {
        if self.secret_key.len() == 0 {
            TabView { token: None, message: Some(NoticeView::Error(empty_secret_text())), ..self }
        } else {
            TabView {
                token: Some(code_at(self.secret_key, DIGITS as nat, PERIOD as nat, now)),
                message: None,
                time_remaining: remaining_at(PERIOD as nat, now),
                ..self
            }
        }
    }

    /// The tab after the user set its secret to `text` at `now`: the old
    /// message is gone; a secret that is not empty has its code derived at
    /// once, an empty one leaves no code.
    pub open spec fn with_secret(self, text: Seq<char>, now: nat) -> TabView {
        let edited = TabView { secret_key: text, message: None, ..self };
        if text.len() > 0 {
            edited.regenerated(now)
        } else {
            TabView { token: None, ..edited }
        }
    }

    /// Whether a tick at `now` derives the tab's code anew: it has a code,
    /// and `now` is the first second of a window.
    pub open spec fn due(self, now: nat) -> bool {
        self.token is Some && remaining_at(PERIOD as nat, now) == PERIOD
    }

    /// The tab after a tick at `now`. Without a code nothing changes. With
    /// one, the countdown is set for `now`, and the code is derived anew
    /// where the countdown is back at the full period.
    pub open spec fn ticked(self, now: nat) -> TabView {
        if self.due(now) {
            self.counted(now).regenerated(now)
        } else if self.token is Some {
            self.counted(now)
        } else {
            self
        }
    }
}

impl StateView {
    /// Whether the store is in a state that its operations keep it in: at
    /// least one tab, the active index among them, the fixed settings, and
    /// every tab in order.
    pub open spec fn wf(self) -> bool {
        &&& self.tabs.len() >= 1
        &&& self.active_tab < self.tabs.len()
        &&& self.digits == DIGITS
        &&& self.period == PERIOD
        &&& forall|i: int| 0 <= i < self.tabs.len() ==> (#[trigger] self.tabs[i]).wf()
    }

    /// The store at start: one fresh tab named "New Tab", active.
    pub open spec fn initial() -> StateView {
        StateView {
            tabs: seq![TabView::fresh("New Tab"@)],
            active_tab: 0,
            digits: DIGITS as nat,
            period: PERIOD as nat,
        }
    }

    /// The store with the tab at `idx` replaced.
    pub open spec fn with_tab(self, idx: nat, tab: TabView) -> StateView {
        StateView { tabs: self.tabs.update(idx as int, tab), ..self }
    }

    /// The store after the secret of the tab at `idx` was set to `text` at
    /// `now`; unchanged where there is no such tab.
    pub open spec fn secret_changed(self, text: Seq<char>, idx: nat, now: nat) -> StateView {
        if idx < self.tabs.len() {
            self.with_tab(idx, self.tabs[idx as int].with_secret(text, now))
        } else {
            self
        }
    }

    /// The store after the code of the tab at `idx` was derived anew at
    /// `now`; unchanged where there is no such tab.
    pub open spec fn token_generated(self, idx: nat, now: nat) -> StateView {
        if idx < self.tabs.len() {
            self.with_tab(idx, self.tabs[idx as int].regenerated(now))
        } else {
            self
        }
    }

    /// The store after a tick at `now`: every tab ticked, by the same `now`.
    pub open spec fn ticked(self, now: nat) -> StateView {
        StateView { tabs: Seq::new(self.tabs.len(), |i: int| self.tabs[i].ticked(now)), ..self }
    }

    /// The store after a tab was added: a fresh tab at the end, named by
    /// its place in the row, and active.
    pub open spec fn tab_added(self) -> StateView {
        StateView {
            tabs: self.tabs.push(TabView::fresh(tab_label(self.tabs.len() + 1))),
            active_tab: self.tabs.len(),
            ..self
        }
    }

    /// The store after the tab at `idx` was to be removed. The last tab
    /// that is left stays, and so does everything where there is no tab at
    /// `idx`. Else the tab goes, and an active index that would point past
    /// the end points at the new last tab.
    pub open spec fn tab_removed(self, idx: nat) -> StateView {
        if self.tabs.len() > 1 && idx < self.tabs.len() {
            StateView {
                tabs: self.tabs.remove(idx as int),
                active_tab: if self.active_tab >= self.tabs.len() - 1 {
                    (self.tabs.len() - 2) as nat
                } else {
                    self.active_tab
                },
                ..self
            }
        } else {
            self
        }
    }

    /// The store with the tab at `idx` active, where there is such a tab.
    pub open spec fn tab_selected(self, idx: nat) -> StateView {
        if idx < self.tabs.len() {
            StateView { active_tab: idx, ..self }
        } else {
            self
        }
    }

    /// The store with the name of the tab at `idx` open for editing or
    /// closed, where there is such a tab.
    pub open spec fn renaming_set(self, idx: nat, editing: bool) -> StateView {
        if idx < self.tabs.len() {
            self.with_tab(idx, TabView { editing_name: editing, ..self.tabs[idx as int] })
        } else {
            self
        }
    }

    /// The store with the tab at `idx` under a new name, where there is such
    /// a tab.
    pub open spec fn name_changed(self, name: Seq<char>, idx: nat) -> StateView {
        if idx < self.tabs.len() {
            self.with_tab(idx, TabView { name, ..self.tabs[idx as int] })
        } else {
            self
        }
    }

    /// The store with the message of the tab at `idx` set, where there is
    /// such a tab.
    pub open spec fn message_set(self, idx: nat, message: Option<NoticeView>) -> StateView {
        if idx < self.tabs.len() {
            self.with_tab(idx, TabView { message, ..self.tabs[idx as int] })
        } else {
            self
        }
    }

    /// The text that goes to the clipboard for the tab at `idx`: its code
    /// without spaces. `None` where there is no such tab or it has no code.
    pub open spec fn text_to_copy(self, idx: nat) -> Option<Seq<char>> {
        if idx < self.tabs.len() && self.tabs[idx as int].token is Some {
            Some(without_spaces(self.tabs[idx as int].token->0))
        } else {
            None
        }
    }

    /// The store after the clipboard answered for the tab at `idx`.
    pub open spec fn copy_finished(self, reply: ReplyView, idx: nat) -> StateView {
        self.message_set(idx, Some(reply.notice()))
    }

    /// The store after the event `message` that came at `now`.
    pub open spec fn step(self, message: Message, now: nat) -> StateView {
        match message {
            Message::SecretKeyChanged(text, idx) => self.secret_changed(text@, idx as nat, now),
            Message::DigitsChanged(_) => StateView { digits: DIGITS as nat, ..self },
            Message::PeriodChanged(_) => StateView { period: PERIOD as nat, ..self },
            Message::GenerateToken => self.token_generated(self.active_tab, now),
            Message::CopyToClipboard(_) => self,
            Message::CopyFinished(reply, idx) => self.copy_finished(reply@, idx as nat),
            Message::Tick => self.ticked(now),
            Message::ClearMessage(idx) => self.message_set(idx as nat, None),
            Message::AddTab => self.tab_added(),
            Message::RemoveTab(idx) => self.tab_removed(idx as nat),
            Message::SelectTab(idx) => self.tab_selected(idx as nat),
            Message::RenameTabStarted(idx) => self.renaming_set(idx as nat, true),
            Message::TabNameChanged(name, idx) => self.name_changed(name@, idx as nat),
            Message::TabNameConfirmed(idx) => self.renaming_set(idx as nat, false),
        }
    }

    /// What the store asks of its caller after the event `message`: to copy
    /// a code where one was asked for and is there; to clear the note of a
    /// copied code later; else nothing.
    pub open spec fn command(self, message: Message) -> CommandView {
        match message {
            Message::CopyToClipboard(idx) => match self.text_to_copy(idx as nat) {
                Some(text) => CommandView::CopyText(text, idx as nat),
                None => CommandView::Nothing,
            },
            Message::CopyFinished(ClipboardReply::Copied, idx) => if idx < self.tabs.len() {
                CommandView::ClearMessageAfter(NOTE_SECONDS as nat, idx as nat)
            } else {
                CommandView::Nothing
            },
            _ => CommandView::Nothing,
        }
    }
}

} // verus!
