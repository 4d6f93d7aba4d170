//! The tabs, the active one among them, and the fixed code settings.

use vstd::prelude::*;
use vstd::string::StringExecFns;
use crate::event::{ClipboardReply, Command, Message, NOTE_SECONDS};
use crate::model::tab_label;
use crate::tab::{Notice, Tab, TabView};
use crate::text::{push_decimal, strip_spaces};

verus! {

/// Number of digits of every code.
pub const DIGITS: u8 = 6;

/// Length in seconds of the window during which a code stays the same.
pub const PERIOD: u64 = 30;

/// The tabs in the order in which they are shown, the index of the active
/// one, and the code settings.
#[derive(Debug)]
pub struct TotpGenerator {
    pub(crate) tabs: Vec<Tab>,
    pub(crate) active_tab: usize,
    pub(crate) digits: u8,
    pub(crate) period: u64,
}

/// The store as plain mathematical values.
pub struct StateView {
    pub tabs: Seq<TabView>,
    pub active_tab: nat,
    pub digits: nat,
    pub period: nat,
}

impl View for TotpGenerator {
    type V = StateView;

    closed spec fn view(&self) -> StateView {
        StateView {
            tabs: Seq::new(self.tabs@.len(), |i: int| self.tabs@[i]@),
            active_tab: self.active_tab as nat,
            digits: self.digits as nat,
            period: self.period as nat,
        }
    }
}

impl Default for TotpGenerator {
    /// The store at start: one fresh tab, active, and the fixed settings.
    fn default() -> (store: TotpGenerator)
        ensures
            store.wf(),
            store@ == StateView::initial(),
    {
        let mut tabs: Vec<Tab> = Vec::new();
        tabs.push(Tab::default());
        let store = TotpGenerator { tabs, active_tab: 0, digits: DIGITS, period: PERIOD };
        assert(store@.tabs == StateView::initial().tabs);
        store
    }
}

/// The name of the tab that is added as the `n`-th.
pub fn label_for(n: usize) -> (label: String)
    ensures
        label@ == tab_label(n as nat),
{
    let mut label = "Tab ".to_owned();
    push_decimal(&mut label, n);
    label
}

impl TotpGenerator {
    /// Whether the store is in a state that its operations keep it in.
    pub open spec fn wf(&self) -> bool {
        self@.wf()
    }

    /// The tabs, in the order in which they are shown.
    pub fn tabs(&self) -> (tabs: &Vec<Tab>)
        ensures
            tabs@.len() == self@.tabs.len(),
            forall|i: int| 0 <= i < tabs@.len() ==> (#[trigger] tabs@[i])@ == self@.tabs[i],
    {
        &self.tabs
    }

    /// The index of the active tab.
    pub fn active_tab(&self) -> (idx: usize)
        ensures
            idx == self@.active_tab,
    {
        self.active_tab
    }

    /// The number of digits of every code.
    pub fn digits(&self) -> (digits: u8)
        ensures
            digits == self@.digits,
    {
        self.digits
    }

    /// The length of a window in seconds.
    pub fn period(&self) -> (period: u64)
        ensures
            period == self@.period,
    {
        self.period
    }

    /// Sets the secret of the tab at `tab_index` and clears its message. A
    /// secret that is not empty has its code derived at once; an empty one
    /// leaves the tab without a code. Does nothing where there is no such
    /// tab.
    pub fn set_secret_key(&mut self, value: String, tab_index: usize, now: u64)
        requires
            old(self).wf(),
        ensures
            final(self).wf(),
            final(self)@ == old(self)@.secret_changed(value@, tab_index as nat, now as nat),
    {
        if tab_index < self.tabs.len() {
            let empty = value.as_str().is_empty();
            self.tabs[tab_index].secret_key = value;
            self.tabs[tab_index].message = None;
            if !empty {
                assert(self.wf()) by {
                    assert forall|i: int| 0 <= i < self@.tabs.len() implies (
                    #[trigger] self@.tabs[i]).wf() by {
                        assert(old(self)@.tabs[i].wf());
                    }
                }
                self.generate_token(tab_index, now);
                assert(final(self)@.tabs == old(self)@.secret_changed(
                    value@,
                    tab_index as nat,
                    now as nat,
                ).tabs);
            } else {
                self.tabs[tab_index].token = None;
                assert(final(self)@.tabs == old(self)@.secret_changed(
                    value@,
                    tab_index as nat,
                    now as nat,
                ).tabs);
            }
        }
    }

    /// Derives the code of the tab at `tab_index` anew for the moment
    /// `now`. With an empty secret the tab loses its code and asks for a
    /// secret. Does nothing where there is no such tab.
    pub fn generate_token(&mut self, tab_index: usize, now: u64)
        requires
            old(self).wf(),
        ensures
            final(self).wf(),
            final(self)@ == old(self)@.token_generated(tab_index as nat, now as nat),
    {
        if tab_index >= self.tabs.len() {
            return ;
        }
        match crate::code::derive(self.tabs[tab_index].secret_key.as_str(), self.digits, self.period, now) {
            Ok((code, remaining)) => {
                self.tabs[tab_index].token = Some(code);
                self.tabs[tab_index].message = None;
                self.tabs[tab_index].time_remaining = remaining;
            },
            Err(failure) => {
                self.tabs[tab_index].message = Some(Notice::Error(failure.message()));
                self.tabs[tab_index].token = None;
            },
        }
        assert(final(self)@.tabs == old(self)@.token_generated(
            tab_index as nat,
            now as nat,
        ).tabs);
    }

    /// Adds a fresh tab at the end, named by its place in the row, and makes
    /// it the active one.
    pub fn add_tab(&mut self)
        requires
            old(self).wf(),
            old(self)@.tabs.len() < usize::MAX,
        ensures
            final(self).wf(),
            final(self)@ == old(self)@.tab_added(),
    {
        let place: usize = self.tabs.len() + 1;
        self.tabs.push(Tab::named(label_for(place)));
        self.active_tab = self.tabs.len() - 1;
        assert(final(self)@.tabs == old(self)@.tab_added().tabs);
    }

    /// Removes the tab at `idx`, unless it is the only one or there is none
    /// at `idx`. An active index that would then point past the end is set
    /// to the new last tab.
    pub fn remove_tab(&mut self, idx: usize)
        requires
            old(self).wf(),
        ensures
            final(self).wf(),
            final(self)@ == old(self)@.tab_removed(idx as nat),
            final(self)@.tabs.len() >= 1,
            old(self)@.tabs.len() == 1 ==> final(self)@ == old(self)@,
            old(self)@.tabs.len() > 1 && idx == old(self)@.active_tab && idx == old(
                self,
            )@.tabs.len() - 1 ==> final(self)@.active_tab == final(self)@.tabs.len() - 1,
    {
        if self.tabs.len() > 1 && idx < self.tabs.len() {
            self.tabs.remove(idx);
            if self.active_tab >= self.tabs.len() {
                self.active_tab = self.tabs.len() - 1;
            }
            assert(final(self)@.tabs == old(self)@.tab_removed(idx as nat).tabs);
        }
    }

    /// Makes the tab at `idx` the active one, where there is such a tab.
    pub fn select_tab(&mut self, idx: usize)
        requires
            old(self).wf(),
        ensures
            final(self).wf(),
            final(self)@ == old(self)@.tab_selected(idx as nat),
    {
        if idx < self.tabs.len() {
            self.active_tab = idx;
        }
    }

    /// Opens the name of the tab at `idx` for editing, where there is such
    /// a tab.
    pub fn start_rename(&mut self, idx: usize)
        requires
            old(self).wf(),
        ensures
            final(self).wf(),
            final(self)@ == old(self)@.renaming_set(idx as nat, true),
    {
        if idx < self.tabs.len() {
            self.tabs[idx].editing_name = true;
            assert(final(self)@.tabs == old(self)@.renaming_set(idx as nat, true).tabs);
        }
    }

    /// Gives the tab at `idx` a new name, where there is such a tab.
    pub fn set_tab_name(&mut self, name: String, idx: usize)
        requires
            old(self).wf(),
        ensures
            final(self).wf(),
            final(self)@ == old(self)@.name_changed(name@, idx as nat),
    {
        if idx < self.tabs.len() {
            self.tabs[idx].name = name;
            assert(final(self)@.tabs == old(self)@.name_changed(name@, idx as nat).tabs);
        }
    }

    /// Closes the name of the tab at `idx` for editing, where there is such
    /// a tab.
    pub fn confirm_rename(&mut self, idx: usize)
        requires
            old(self).wf(),
        ensures
            final(self).wf(),
            final(self)@ == old(self)@.renaming_set(idx as nat, false),
    {
        if idx < self.tabs.len() {
            self.tabs[idx].editing_name = false;
            assert(final(self)@.tabs == old(self)@.renaming_set(idx as nat, false).tabs);
        }
    }

    /// Clears the message of the tab at `idx`, where there is such a tab.
    pub fn clear_message(&mut self, idx: usize)
        requires
            old(self).wf(),
        ensures
            final(self).wf(),
            final(self)@ == old(self)@.message_set(idx as nat, None),
    {
        if idx < self.tabs.len() {
            self.tabs[idx].message = None;
            assert(final(self)@.tabs == old(self)@.message_set(idx as nat, None).tabs);
        }
    }

    /// Asks for the code of the tab at `tab_index` to be put on the
    /// clipboard, without spaces. Asks for nothing where there is no such
    /// tab or it has no code.
    pub fn request_copy(&self, tab_index: usize) -> (command: Command)
        requires
            self.wf(),
        ensures
            command@ == self@.command(Message::CopyToClipboard(tab_index)),
    {
        if tab_index < self.tabs.len() {
            match &self.tabs[tab_index].token {
                Some(code) => Command::CopyText(strip_spaces(code.as_str()), tab_index),
                None => Command::Nothing,
            }
        } else {
            Command::Nothing
        }
    }

    /// Records on the tab at `tab_index` how the clipboard answered: a
    /// note where the code was copied, which is to be cleared again after
    /// `NOTE_SECONDS`; else the failure with its reason. Does nothing where
    /// there is no such tab.
    pub fn finish_copy(&mut self, reply: ClipboardReply, tab_index: usize) -> (command: Command)
        requires
            old(self).wf(),
        ensures
            final(self).wf(),
            final(self)@ == old(self)@.copy_finished(reply@, tab_index as nat),
            command@ == old(self)@.command(Message::CopyFinished(reply, tab_index)),
    {
        if tab_index >= self.tabs.len() {
            return Command::Nothing;
        }
        let (notice, command) = match reply {
            ClipboardReply::Copied => (
                Notice::Info("Code copied to clipboard!".to_owned()),
                Command::ClearMessageAfter(NOTE_SECONDS, tab_index),
            ),
            ClipboardReply::Unavailable(reason) => (
                Notice::Error("Failed to access clipboard: ".to_owned().concat(reason.as_str())),
                Command::Nothing,
            ),
            ClipboardReply::Refused(reason) => (
                Notice::Error("Failed to copy to clipboard: ".to_owned().concat(reason.as_str())),
                Command::Nothing,
            ),
        };
        self.tabs[tab_index].message = Some(notice);
        assert(final(self)@.tabs == old(self)@.copy_finished(reply@, tab_index as nat).tabs);
        command
    }

    /// Handles a tick of the clock at `now`. First every tab with a code
    /// has its countdown set for `now`; then the tabs whose countdown is
    /// back at the full period have their code derived anew. All tabs go by
    /// the same `now`.
    pub fn tick(&mut self, now: u64)
        requires
            old(self).wf(),
        ensures
            final(self).wf(),
            final(self)@ == old(self)@.ticked(now as nat),
    {
        let mut due: Vec<usize> = Vec::new();
        let mut idx: usize = 0;
        while idx < self.tabs.len()
            invariant
                self.wf(),
                idx <= self.tabs.len(),
                self@.tabs.len() == old(self)@.tabs.len(),
                self@.active_tab == old(self)@.active_tab,
                self@.digits == old(self)@.digits,
                self@.period == old(self)@.period,
                forall|j: int|
                    0 <= j < idx ==> #[trigger] self@.tabs[j] == if old(self)@.tabs[j].token is Some {
                        old(self)@.tabs[j].counted(now as nat)
                    } else {
                        old(self)@.tabs[j]
                    },
                forall|j: int| idx <= j < self@.tabs.len() ==> self@.tabs[j] == old(self)@.tabs[j],
                forall|k: int| 0 <= k < due@.len() ==> #[trigger] due@[k] < idx,
                forall|j: int|
                    0 <= j < idx ==> (old(self)@.tabs[j].due(now as nat) <==> #[trigger] listed(
                        due@,
                        j,
                    )),
            decreases self.tabs.len() - idx,
        {
            let ghost before = self@;
            let ghost listed_before = due@;
            if self.tabs[idx].token.is_some() {
                self.tabs[idx].time_remaining = self.period - now % self.period;
                if self.tabs[idx].time_remaining == self.period {
                    due.push(idx);
                    assert(listed(due@, idx as int)) by {
                        assert(due@[due@.len() - 1] == idx);
                    }
                }
            }
            proof {
                assert forall|j: int| 0 <= j < idx + 1 implies (old(self)@.tabs[j].due(now as nat)
                    <==> #[trigger] listed(due@, j)) by {
                    lemma_listed_push(listed_before, idx, j);
                }
                assert forall|i: int| 0 <= i < self@.tabs.len() implies (
                #[trigger] self@.tabs[i]).wf() by {
                    assert(before.tabs[i].wf());
                }
                assert forall|j: int| 0 <= j < idx + 1 implies #[trigger] self@.tabs[j] == if old(
                    self,
                )@.tabs[j].token is Some {
                    old(self)@.tabs[j].counted(now as nat)
                } else {
                    old(self)@.tabs[j]
                } by {
                    if j < idx {
                        assert(self@.tabs[j] == before.tabs[j]);
                    }
                }
            }
            idx = idx + 1;
        }
        let ghost counted = self@;
        let mut k: usize = 0;
        while k < due.len()
            invariant
                self.wf(),
                k <= due.len(),
                self@.tabs.len() == counted.tabs.len(),
                self@.active_tab == counted.active_tab,
                self@.digits == counted.digits,
                self@.period == counted.period,
                forall|m: int| 0 <= m < due@.len() ==> #[trigger] due@[m] < counted.tabs.len(),
                forall|j: int|
                    0 <= j < counted.tabs.len() ==> #[trigger] self@.tabs[j] == if listed(
                        due@.take(k as int),
                        j,
                    ) {
                        counted.tabs[j].regenerated(now as nat)
                    } else {
                        counted.tabs[j]
                    },
            decreases due.len() - k,
        {
            let ghost before = self@;
            self.generate_token(due[k], now);
            proof {
                assert(due@.take(k + 1) == due@.take(k as int).push(due@[k as int]));
                assert forall|j: int| 0 <= j < counted.tabs.len() implies #[trigger] self@.tabs[j]
                    == if listed(due@.take(k + 1), j) {
                    counted.tabs[j].regenerated(now as nat)
                } else {
                    counted.tabs[j]
                } by {
                    lemma_listed_push(due@.take(k as int), due@[k as int], j);
                    assert(before.tabs[j] == if listed(due@.take(k as int), j) {
                        counted.tabs[j].regenerated(now as nat)
                    } else {
                        counted.tabs[j]
                    });
                }
            }
            k = k + 1;
        }
        proof {
            assert(due@.take(due@.len() as int) == due@);
            assert(final(self)@.tabs =~= old(self)@.ticked(now as nat).tabs);
        }
    }

    /// Handles one event that came at the moment `now`, and says what the
    /// caller is to do next. No event leaves the store without a tab or
    /// with an active index that points at none.
    pub fn update(&mut self, message: Message, now: u64) -> (command: Command)
        requires
            old(self).wf(),
            message is AddTab ==> old(self)@.tabs.len() < usize::MAX,
        ensures
            final(self).wf(),
            final(self)@ == old(self)@.step(message, now as nat),
            command@ == old(self)@.command(message),
    {
        match message {
            Message::SecretKeyChanged(value, tab_index) => {
                self.set_secret_key(value, tab_index, now);
            },
            Message::DigitsChanged(_) => {
                self.digits = DIGITS;
            },
            Message::PeriodChanged(_) => {
                self.period = PERIOD;
            },
            Message::GenerateToken => {
                self.generate_token(self.active_tab, now);
            },
            Message::CopyToClipboard(tab_index) => {
                return self.request_copy(tab_index);
            },
            Message::CopyFinished(reply, tab_index) => {
                return self.finish_copy(reply, tab_index);
            },
            Message::Tick => {
                self.tick(now);
            },
            Message::ClearMessage(tab_index) => {
                self.clear_message(tab_index);
            },
            Message::AddTab => {
                self.add_tab();
            },
            Message::RemoveTab(idx) => {
                self.remove_tab(idx);
            },
            Message::SelectTab(idx) => {
                self.select_tab(idx);
            },
            Message::RenameTabStarted(idx) => {
                self.start_rename(idx);
            },
            Message::TabNameChanged(name, idx) => {
                self.set_tab_name(name, idx);
            },
            Message::TabNameConfirmed(idx) => {
                self.confirm_rename(idx);
            },
        }
        Command::Nothing
    }
}

/// Whether the index `j` stands in the list.
spec fn listed(list: Seq<usize>, j: int) -> bool {
    exists|k: int| 0 <= k < list.len() && #[trigger] list[k] == j
}

/// After one more index was put on a list, an index stands in it where it
/// stood in it before or is the new one.
proof fn lemma_listed_push(list: Seq<usize>, added: usize, j: int)
    ensures
        listed(list.push(added), j) <==> listed(list, j) || j == added,
{
    if listed(list, j) {
        let k = choose|k: int| 0 <= k < list.len() && #[trigger] list[k] == j;
        assert(list.push(added)[k] == j);
    }
    if j == added {
        assert(list.push(added)[list.len() as int] == j);
    }
    if listed(list.push(added), j) {
        let k = choose|k: int| 0 <= k < list.push(added).len() && #[trigger] list.push(added)[k] == j;
        if k < list.len() {
            assert(list[k] == j);
        }
    }
}

} // verus!
