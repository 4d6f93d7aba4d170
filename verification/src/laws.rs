//! What holds of the decoder, of the codes and of the store, whatever the
//! inputs.

use vstd::prelude::*;
use vstd::arithmetic::div_mod::lemma_fundamental_div_mod_converse;
use crate::code::{code_at, remaining_at};
use crate::key::{key_of, key_of_normalized, padded_key, MIN_KEY_LEN};
use crate::event::Message;
use crate::model::ReplyView;
use crate::store::{StateView, PERIOD};
use crate::tab::TabView;
use crate::text::lemma_filter_keeps_all;

verus! {

/// A moment lies in the window with the number `window`: from
/// `window * period` up to, but not including, `(window + 1) * period`.
pub open spec fn in_window(period: nat, window: nat, now: nat) -> bool {
    window * period <= now < (window + 1) * period
}

/// A moment in the window with the number `window` has that number as its
/// quotient by the period, and its distance from the start of the window as
/// its remainder.
pub proof fn lemma_window_number(period: nat, window: nat, now: nat)
    requires
        period > 0,
        in_window(period, window, now),
    ensures
        now / period == window,
        now % period == now - window * period,
{
    assert((window + 1) * period == window * period + period) by (nonlinear_arith);
    lemma_fundamental_div_mod_converse(
        now as int,
        period as int,
        window as int,
        now - window * period,
    );
}

/// Padding brings every key to at least the least length, and leaves a key
/// that has it unchanged.
pub proof fn lemma_padded_key_len(key: Seq<u8>)
    ensures
        padded_key(key).len() >= MIN_KEY_LEN,
        key.len() >= MIN_KEY_LEN ==> padded_key(key) == key,
        key.len() < MIN_KEY_LEN ==> padded_key(key).len() == MIN_KEY_LEN,
{
}

/// Every secret, whatever its text, stands for a key, and that key has at
/// least the least length.
pub proof fn lemma_every_secret_has_a_key(raw: Seq<char>)
    ensures
        key_of(raw).len() >= MIN_KEY_LEN,
{
    let text = crate::key::normalized(raw);
    match crate::key::base32_reading(text) {
        Some(bytes) => lemma_padded_key_len(bytes),
        None => lemma_padded_key_len(vstd::utf8::encode_utf8(text)),
    }
    assert(key_of(raw) == key_of_normalized(text));
}

/// Two moments in one window give the same code for the same secret.
pub proof fn lemma_same_window_same_code(
    secret: Seq<char>,
    digits: nat,
    period: nat,
    window: nat,
    now1: nat,
    now2: nat,
)
    requires
        period > 0,
        in_window(period, window, now1),
        in_window(period, window, now2),
    ensures
        code_at(secret, digits, period, now1) == code_at(secret, digits, period, now2),
{
    lemma_window_number(period, window, now1);
    lemma_window_number(period, window, now2);
}

/// Within one window the countdown does not rise as time goes on, and it
/// stays between 1 and the period.
pub proof fn lemma_countdown_falls_within_window(period: nat, window: nat, now1: nat, now2: nat)
    requires
        period > 0,
        in_window(period, window, now1),
        in_window(period, window, now2),
        now1 <= now2,
    ensures
        remaining_at(period, now1) >= remaining_at(period, now2),
        remaining_at(period, now1) - remaining_at(period, now2) == now2 - now1,
        1 <= remaining_at(period, now2),
        remaining_at(period, now1) <= period,
{
    lemma_window_number(period, window, now1);
    lemma_window_number(period, window, now2);
}

/// At the first second of a window the countdown is back at the full
/// period, and only there.
pub proof fn lemma_countdown_resets_at_window_start(period: nat, window: nat, now: nat)
    requires
        period > 0,
        in_window(period, window, now),
    ensures
        remaining_at(period, now) == period <==> now == window * period,
{
    lemma_window_number(period, window, now);
}

/// Removing a tab never leaves the store without one: the only tab stays,
/// and with it the whole store as it was.
pub proof fn lemma_remove_keeps_a_tab(store: StateView, idx: nat)
    requires
        store.wf(),
    ensures
        store.tab_removed(idx).wf(),
        store.tab_removed(idx).tabs.len() >= 1,
        store.tabs.len() == 1 ==> store.tab_removed(idx) == store,
        idx >= store.tabs.len() ==> store.tab_removed(idx) == store,
        store.tabs.len() > 1 && idx < store.tabs.len() ==> store.tab_removed(idx).tabs.len()
            == store.tabs.len() - 1,
{
    let after = store.tab_removed(idx);
    assert forall|i: int| 0 <= i < after.tabs.len() implies (#[trigger] after.tabs[i]).wf() by {
        if store.tabs.len() > 1 && idx < store.tabs.len() {
            if i < idx {
                assert(after.tabs[i] == store.tabs[i]);
            } else {
                assert(after.tabs[i] == store.tabs[i + 1]);
            }
        }
    }
}

/// Where the active tab is the last one and is removed, the new last tab
/// is the active one.
pub proof fn lemma_remove_last_active(store: StateView)
    requires
        store.wf(),
        store.tabs.len() > 1,
        store.active_tab == store.tabs.len() - 1,
    ensures
        store.tab_removed(store.active_tab).active_tab == store.tab_removed(
            store.active_tab,
        ).tabs.len() - 1,
{
}

/// A tab whose secret is set and then cleared has neither a code nor a
/// message, whatever was there before and whatever the secret was.
pub proof fn lemma_secret_set_then_cleared(
    store: StateView,
    idx: nat,
    text: Seq<char>,
    now1: nat,
    now2: nat,
)
    requires
        idx < store.tabs.len(),
    ensures
        ({
            let cleared = store.secret_changed(text, idx, now1).secret_changed(
                Seq::empty(),
                idx,
                now2,
            );
            &&& cleared.tabs.len() == store.tabs.len()
            &&& cleared.tabs[idx as int].token is None
            &&& cleared.tabs[idx as int].message is None
            &&& cleared.tabs[idx as int].secret_key == Seq::<char>::empty()
            &&& forall|j: int|
                0 <= j < store.tabs.len() && j != idx ==> cleared.tabs[j] == store.tabs[j]
        }),
{
}

/// Two tabs with the same secret get the same code and the same message
/// when their codes are derived at the same moment, and, where the secret is
/// not empty, the same countdown.
pub proof fn lemma_same_secret_same_code(a: TabView, b: TabView, now: nat)
    requires
        a.secret_key == b.secret_key,
    ensures
        a.regenerated(now).token == b.regenerated(now).token,
        a.regenerated(now).message == b.regenerated(now).message,
        a.secret_key.len() > 0 ==> a.regenerated(now).time_remaining == b.regenerated(
            now,
        ).time_remaining,
{
}

/// A tick derives a code anew only at the first second of a window. At any
/// other moment every tab keeps its code, its secret and its message; and
/// a tab without a code is never touched by a tick.
pub proof fn lemma_tick_within_window_keeps_codes(store: StateView, now: nat, idx: int)
    requires
        0 <= idx < store.tabs.len(),
    ensures
        store.ticked(now).tabs.len() == store.tabs.len(),
        store.ticked(now).active_tab == store.active_tab,
        store.tabs[idx].token is None ==> store.ticked(now).tabs[idx] == store.tabs[idx],
        now % (PERIOD as nat) != 0 ==> store.ticked(now).tabs[idx] == (TabView {
            time_remaining: store.ticked(now).tabs[idx].time_remaining,
            ..store.tabs[idx]
        }),
        store.tabs[idx].token is Some && now % (PERIOD as nat) == 0 ==> store.ticked(
            now,
        ).tabs[idx] == store.tabs[idx].counted(now).regenerated(now),
{
}

/// What goes to the clipboard for a tab of a well-formed store is the code
/// of that tab as it stands: a code has no spaces to lose.
pub proof fn lemma_copied_text_is_the_code(store: StateView, idx: nat)
    requires
        store.wf(),
        idx < store.tabs.len(),
    ensures
        store.text_to_copy(idx) == store.tabs[idx as int].token,
{
    let tab = store.tabs[idx as int];
    assert(tab.wf());
    if let Some(code) = tab.token {
        assert forall|i: int| 0 <= i < code.len() implies #[trigger] code[i] != ' ' by {
            assert(crate::code::is_decimal_digit(code[i]));
        }
        lemma_filter_keeps_all(code, |c: char| c != ' ');
    }
}

/// No event leaves the store without a tab, or with an active index that
/// points at none; and none but adding and removing changes the number of
/// tabs.
pub proof fn lemma_step_keeps_an_active_tab(store: StateView, message: Message, now: nat)
    requires
        store.tabs.len() >= 1,
        store.active_tab < store.tabs.len(),
    ensures
        store.step(message, now).tabs.len() >= 1,
        store.step(message, now).active_tab < store.step(message, now).tabs.len(),
        !(message is AddTab) && !(message is RemoveTab) ==> store.step(message, now).tabs.len()
            == store.tabs.len(),
{
}

/// What happens to one tab leaves every other tab as it was: a new secret,
/// a code derived anew, and the answer of the clipboard, whether they end
/// well or in a failure.
pub proof fn lemma_other_tabs_untouched(
    store: StateView,
    idx: nat,
    other: int,
    text: Seq<char>,
    reply: ReplyView,
    now: nat,
)
    requires
        0 <= other < store.tabs.len(),
        other != idx,
    ensures
        store.secret_changed(text, idx, now).tabs[other] == store.tabs[other],
        store.token_generated(idx, now).tabs[other] == store.tabs[other],
        store.copy_finished(reply, idx).tabs[other] == store.tabs[other],
        store.message_set(idx, None).tabs[other] == store.tabs[other],
{
}

} // verus!
