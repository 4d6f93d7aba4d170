//! One tab: a named secret with its current code, countdown and message.

use vstd::prelude::*;

verus! {

/// A line shown under a tab's code: a note that something went well, or the
/// reason why something failed.
#[derive(Debug, Clone)]
pub enum Notice {
    /// Something the user asked for was done.
    Info(String),
    /// Something failed; the text says what.
    Error(String),
}

/// A notice with its text as a sequence of characters.
pub enum NoticeView {
    Info(Seq<char>),
    Error(Seq<char>),
}

impl View for Notice {
    type V = NoticeView;

    open spec fn view(&self) -> NoticeView {
        match self {
            Notice::Info(text) => NoticeView::Info(text@),
            Notice::Error(text) => NoticeView::Error(text@),
        }
    }
}

impl Notice {
    /// Whether the notice reports a failure.
    pub fn is_error(&self) -> (yes: bool)
        ensures
            yes == (self@ is Error),
    {
        match self {
            Notice::Info(_) => false,
            Notice::Error(_) => true,
        }
    }

    /// The text of the notice.
    pub fn text(&self) -> (text: &String)
        ensures
            text@ == self@.text(),
    {
        match self {
            Notice::Info(text) => text,
            Notice::Error(text) => text,
        }
    }
}

impl NoticeView {
    /// The text of the notice, whatever its kind.
    pub open spec fn text(self) -> Seq<char> {
        match self {
            NoticeView::Info(text) => text,
            NoticeView::Error(text) => text,
        }
    }
}

/// The view of an optional text.
pub open spec fn text_view(text: Option<String>) -> Option<Seq<char>> {
    match text {
        Some(t) => Some(t@),
        None => None,
    }
}

/// The view of an optional notice.
pub open spec fn notice_view(notice: Option<Notice>) -> Option<NoticeView> {
    match notice {
        Some(n) => Some(n@),
        None => None,
    }
}

/// A tab: a name, the secret as the user typed it, and what was derived
/// from it.
#[derive(Debug, Clone)]
pub struct Tab {
    /// The name shown on the tab; it need not be unique.
    pub name: String,
    /// The secret as typed: it may be empty or malformed.
    pub secret_key: String,
    /// The current code; `None` until one was derived.
    pub token: Option<String>,
    /// The last note or failure, if any.
    pub message: Option<Notice>,
    /// Seconds until `token` must be replaced; it counts only while there is
    /// a token.
    pub time_remaining: u64,
    /// Whether the name is being edited.
    pub editing_name: bool,
}

/// A tab as plain mathematical values.
pub struct TabView {
    pub name: Seq<char>,
    pub secret_key: Seq<char>,
    pub token: Option<Seq<char>>,
    pub message: Option<NoticeView>,
    pub time_remaining: nat,
    pub editing_name: bool,
}

impl View for Tab {
    type V = TabView;

    open spec fn view(&self) -> TabView {
        TabView {
            name: self.name@,
            secret_key: self.secret_key@,
            token: text_view(self.token),
            message: notice_view(self.message),
            time_remaining: self.time_remaining as nat,
            editing_name: self.editing_name,
        }
    }
}

/// The countdown of a tab that has no code yet.
pub const INITIAL_TIME_REMAINING: u64 = 30;

impl TabView {
    /// A fresh tab under the given name: no secret, no code, no message, the
    /// name open for editing.
    pub open spec fn fresh(name: Seq<char>) -> TabView {
        TabView {
            name,
            secret_key: Seq::empty(),
            token: None,
            message: None,
            time_remaining: INITIAL_TIME_REMAINING as nat,
            editing_name: true,
        }
    }
}

impl Tab {
    /// A fresh tab under the given name.
    pub fn named(name: String) -> (tab: Tab)
        ensures
            tab@ == TabView::fresh(name@),
    {
        Tab {
            name,
            secret_key: String::new(),
            token: None,
            message: None,
            time_remaining: INITIAL_TIME_REMAINING,
            editing_name: true,
        }
    }
}

impl Default for Tab {
    /// A fresh tab named "New Tab".
    fn default() -> (tab: Tab)
        ensures
            tab@ == TabView::fresh("New Tab"@),
    {
        Tab::named("New Tab".to_owned())
    }
}

} // verus!
