use totp_generator::event::{ClipboardReply, Command, Message, NOTE_SECONDS};
use totp_generator::store::{label_for, TotpGenerator, DIGITS, PERIOD};
use totp_generator::tab::{Notice, Tab, INITIAL_TIME_REMAINING};

const SECRET: &str = "JBSWY3DPEHPK3PXP";

fn with_tabs(n: usize) -> TotpGenerator {
    let mut store = TotpGenerator::default();
    while store.tabs().len() < n {
        store.update(Message::AddTab, 0);
    }
    store
}

fn names(store: &TotpGenerator) -> Vec<String> {
    store.tabs().iter().map(|tab| tab.name.clone()).collect()
}

fn is_nothing(command: &Command) -> bool {
    matches!(command, Command::Nothing)
}

fn error_text(tab: &Tab) -> Option<String> {
    match &tab.message {
        Some(Notice::Error(text)) => Some(text.clone()),
        _ => None,
    }
}

#[test]
fn a_default_tab_is_empty_and_open_for_naming() {
    let tab = Tab::default();
    assert_eq!(tab.name, "New Tab");
    assert_eq!(tab.secret_key, "");
    assert!(tab.token.is_none());
    assert!(tab.message.is_none());
    assert_eq!(tab.time_remaining, 30);
    assert_eq!(INITIAL_TIME_REMAINING, 30);
    assert!(tab.editing_name);
}

#[test]
fn a_named_tab_differs_from_the_default_in_its_name_only() {
    let tab = Tab::named("Work".to_string());
    assert_eq!(tab.name, "Work");
    assert_eq!(tab.secret_key, "");
    assert!(tab.token.is_none());
    assert!(tab.message.is_none());
    assert_eq!(tab.time_remaining, 30);
    assert!(tab.editing_name);
}

#[test]
fn the_store_starts_with_one_active_tab() {
    let store = TotpGenerator::default();
    assert_eq!(store.tabs().len(), 1);
    assert_eq!(store.active_tab(), 0);
    assert_eq!(store.digits(), 6);
    assert_eq!(store.period(), 30);
    assert_eq!((DIGITS, PERIOD), (6, 30));
    assert_eq!(store.tabs()[0].name, "New Tab");
}

#[test]
fn added_tabs_are_named_by_their_place_and_active() {
    let mut store = TotpGenerator::default();
    assert!(is_nothing(&store.update(Message::AddTab, 0)));
    assert_eq!(store.active_tab(), 1);
    store.add_tab();
    assert_eq!(store.active_tab(), 2);
    assert_eq!(names(&store), ["New Tab", "Tab 2", "Tab 3"]);
    let added = &store.tabs()[2];
    assert!(added.editing_name);
    assert!(added.token.is_none());
    assert_eq!(added.secret_key, "");
}

#[test]
fn labels_count_in_decimal() {
    assert_eq!(label_for(2), "Tab 2");
    assert_eq!(label_for(10), "Tab 10");
    assert_eq!(label_for(1203), "Tab 1203");
}

#[test]
fn the_eleventh_tab_is_tab_11() {
    let store = with_tabs(11);
    assert_eq!(store.tabs()[9].name, "Tab 10");
    assert_eq!(store.tabs()[10].name, "Tab 11");
}

#[test]
fn the_only_tab_cannot_be_removed() {
    let mut store = TotpGenerator::default();
    store.update(Message::SecretKeyChanged(SECRET.to_string(), 0), 59);
    assert!(is_nothing(&store.update(Message::RemoveTab(0), 0)));
    assert_eq!(store.tabs().len(), 1);
    assert_eq!(store.active_tab(), 0);
    assert_eq!(store.tabs()[0].secret_key, SECRET);
    store.remove_tab(0);
    assert_eq!(store.tabs().len(), 1);
}

#[test]
fn removing_a_tab_that_is_not_there_changes_nothing() {
    let mut store = with_tabs(3);
    store.update(Message::RemoveTab(3), 0);
    store.update(Message::RemoveTab(usize::MAX), 0);
    assert_eq!(names(&store), ["New Tab", "Tab 2", "Tab 3"]);
    assert_eq!(store.active_tab(), 2);
}

#[test]
fn removing_the_last_tab_while_active_moves_to_the_new_last() {
    let mut store = with_tabs(3);
    assert_eq!(store.active_tab(), 2);
    store.update(Message::RemoveTab(2), 0);
    assert_eq!(names(&store), ["New Tab", "Tab 2"]);
    assert_eq!(store.active_tab(), 1);
    store.update(Message::RemoveTab(1), 0);
    assert_eq!(store.active_tab(), 0);
    assert_eq!(names(&store), ["New Tab"]);
}

#[test]
fn removing_a_tab_before_the_active_one_keeps_the_index() {
    let mut store = with_tabs(4);
    store.update(Message::SelectTab(1), 0);
    store.update(Message::RemoveTab(0), 0);
    assert_eq!(names(&store), ["Tab 2", "Tab 3", "Tab 4"]);
    assert_eq!(store.active_tab(), 1);
    store.update(Message::SelectTab(2), 0);
    store.update(Message::RemoveTab(0), 0);
    assert_eq!(names(&store), ["Tab 3", "Tab 4"]);
    assert_eq!(store.active_tab(), 1);
}

#[test]
fn removing_a_tab_after_the_active_one_keeps_the_index() {
    let mut store = with_tabs(3);
    store.update(Message::SelectTab(0), 0);
    store.update(Message::RemoveTab(1), 0);
    assert_eq!(names(&store), ["New Tab", "Tab 3"]);
    assert_eq!(store.active_tab(), 0);
}

#[test]
fn a_tab_added_after_a_removal_is_named_by_the_new_count() {
    let mut store = with_tabs(3);
    store.update(Message::RemoveTab(0), 0);
    store.update(Message::AddTab, 0);
    assert_eq!(names(&store), ["Tab 2", "Tab 3", "Tab 3"]);
}

#[test]
fn select_ignores_an_index_out_of_range() {
    let mut store = with_tabs(3);
    store.update(Message::SelectTab(0), 0);
    assert_eq!(store.active_tab(), 0);
    store.update(Message::SelectTab(3), 0);
    assert_eq!(store.active_tab(), 0);
    store.select_tab(2);
    assert_eq!(store.active_tab(), 2);
}

#[test]
fn renaming_goes_through_three_steps() {
    let mut store = with_tabs(2);
    store.update(Message::TabNameConfirmed(1), 0);
    assert!(!store.tabs()[1].editing_name);
    assert!(store.tabs()[0].editing_name);
    store.update(Message::RenameTabStarted(1), 0);
    assert!(store.tabs()[1].editing_name);
    store.update(Message::TabNameChanged("Mail".to_string(), 1), 0);
    assert_eq!(names(&store), ["New Tab", "Mail"]);
    store.update(Message::TabNameConfirmed(1), 0);
    assert!(!store.tabs()[1].editing_name);
    assert_eq!(store.tabs()[1].name, "Mail");
}

#[test]
fn two_tabs_may_have_the_same_name() {
    let mut store = with_tabs(2);
    store.set_tab_name("Same".to_string(), 0);
    store.set_tab_name("Same".to_string(), 1);
    assert_eq!(names(&store), ["Same", "Same"]);
}

#[test]
fn rename_events_for_a_missing_tab_are_ignored() {
    let mut store = with_tabs(2);
    store.update(Message::RenameTabStarted(2), 0);
    store.update(Message::TabNameChanged("x".to_string(), 2), 0);
    store.update(Message::TabNameConfirmed(9), 0);
    store.update(Message::ClearMessage(9), 0);
    store.update(Message::SecretKeyChanged(SECRET.to_string(), 2), 59);
    assert_eq!(names(&store), ["New Tab", "Tab 2"]);
    assert!(store.tabs().iter().all(|tab| tab.editing_name && tab.token.is_none()));
}

#[test]
fn setting_a_secret_derives_the_code_at_once() {
    let mut store = TotpGenerator::default();
    let command = store.update(Message::SecretKeyChanged(SECRET.to_string(), 0), 59);
    assert!(is_nothing(&command));
    let tab = &store.tabs()[0];
    assert_eq!(tab.secret_key, SECRET);
    assert_eq!(tab.token.as_deref(), Some("996554"));
    assert_eq!(tab.time_remaining, 1);
    assert!(tab.message.is_none());
}

#[test]
fn setting_a_secret_clears_the_old_message() {
    let mut store = TotpGenerator::default();
    store.update(Message::GenerateToken, 59);
    assert_eq!(error_text(&store.tabs()[0]).as_deref(), Some("Please enter a secret key"));
    store.update(Message::SecretKeyChanged(SECRET.to_string(), 0), 59);
    assert!(store.tabs()[0].message.is_none());
}

#[test]
fn setting_and_clearing_a_secret_leaves_no_code_and_no_message() {
    let mut store = TotpGenerator::default();
    store.update(Message::SecretKeyChanged(SECRET.to_string(), 0), 59);
    assert!(store.tabs()[0].token.is_some());
    store.update(Message::SecretKeyChanged(String::new(), 0), 61);
    let tab = &store.tabs()[0];
    assert!(tab.token.is_none());
    assert!(tab.message.is_none());
    assert_eq!(tab.secret_key, "");
}

#[test]
fn clearing_a_secret_also_clears_an_earlier_error() {
    let mut store = TotpGenerator::default();
    store.update(Message::GenerateToken, 0);
    assert!(store.tabs()[0].message.is_some());
    store.update(Message::SecretKeyChanged(String::new(), 0), 0);
    assert!(store.tabs()[0].message.is_none());
    assert!(store.tabs()[0].token.is_none());
}

#[test]
fn generate_token_works_on_the_active_tab() {
    let mut store = with_tabs(2);
    store.update(Message::SecretKeyChanged(SECRET.to_string(), 0), 0);
    assert_eq!(store.tabs()[0].token.as_deref(), Some("282760"));
    store.update(Message::GenerateToken, 59);
    assert_eq!(error_text(&store.tabs()[1]).as_deref(), Some("Please enter a secret key"));
    assert_eq!(store.tabs()[0].token.as_deref(), Some("282760"));
    store.update(Message::SelectTab(0), 59);
    store.update(Message::GenerateToken, 59);
    assert_eq!(store.tabs()[0].token.as_deref(), Some("996554"));
    assert_eq!(store.tabs()[0].time_remaining, 1);
}

#[test]
fn generate_token_ignores_a_missing_tab() {
    let mut store = TotpGenerator::default();
    store.generate_token(1, 59);
    assert!(store.tabs()[0].message.is_none());
}

#[test]
fn same_secret_same_moment_same_code() {
    let mut store = with_tabs(2);
    store.update(Message::SecretKeyChanged(SECRET.to_string(), 0), 1_700_000_017);
    store.update(Message::SecretKeyChanged(SECRET.to_string(), 1), 1_700_000_017);
    let (a, b) = (&store.tabs()[0], &store.tabs()[1]);
    assert!(a.token.is_some());
    assert_eq!(a.token, b.token);
    assert_eq!(a.time_remaining, b.time_remaining);
    assert_eq!(a.time_remaining, 30 - 1_700_000_017 % 30);
}

#[test]
fn digits_and_period_stay_fixed() {
    let mut store = TotpGenerator::default();
    assert!(is_nothing(&store.update(Message::DigitsChanged(8), 0)));
    assert!(is_nothing(&store.update(Message::PeriodChanged(60), 0)));
    assert_eq!(store.digits(), 6);
    assert_eq!(store.period(), 30);
    store.update(Message::SecretKeyChanged(SECRET.to_string(), 0), 59);
    assert_eq!(store.tabs()[0].token.as_deref(), Some("996554"));
}

#[test]
fn a_tick_within_the_window_moves_the_countdown_only() {
    let mut store = with_tabs(2);
    store.update(Message::SecretKeyChanged(SECRET.to_string(), 0), 31);
    assert_eq!(store.tabs()[0].time_remaining, 29);
    assert!(is_nothing(&store.update(Message::Tick, 45)));
    assert_eq!(store.tabs()[0].time_remaining, 15);
    assert_eq!(store.tabs()[0].token.as_deref(), Some("996554"));
    store.update(Message::Tick, 59);
    assert_eq!(store.tabs()[0].time_remaining, 1);
    assert_eq!(store.tabs()[0].token.as_deref(), Some("996554"));
    assert_eq!(store.tabs()[1].time_remaining, 30);
    assert!(store.tabs()[1].token.is_none());
}

#[test]
fn a_tick_at_the_start_of_a_window_renews_the_code() {
    let mut store = with_tabs(3);
    store.update(Message::SecretKeyChanged(SECRET.to_string(), 0), 59);
    store.update(Message::SecretKeyChanged("jbsw-y3dp".to_string(), 2), 59);
    assert_eq!(store.tabs()[0].token.as_deref(), Some("996554"));
    assert_eq!(store.tabs()[2].token.as_deref(), Some("409098"));
    store.update(Message::Tick, 60);
    assert_eq!(store.tabs()[0].token.as_deref(), Some("602287"));
    assert_eq!(store.tabs()[0].time_remaining, 30);
    assert_eq!(store.tabs()[2].token.as_deref(), Some("268349"));
    assert_eq!(store.tabs()[2].time_remaining, 30);
    let untouched = &store.tabs()[1];
    assert!(untouched.token.is_none());
    assert!(untouched.message.is_none());
    assert_eq!(untouched.time_remaining, 30);
    assert_eq!(store.active_tab(), 2);
}

#[test]
fn a_tick_uses_the_moment_it_is_given() {
    let mut store = TotpGenerator::default();
    store.update(Message::SecretKeyChanged(SECRET.to_string(), 0), 0);
    assert_eq!(store.tabs()[0].token.as_deref(), Some("282760"));
    store.tick(59);
    assert_eq!(store.tabs()[0].token.as_deref(), Some("282760"));
    assert_eq!(store.tabs()[0].time_remaining, 1);
    store.tick(30);
    assert_eq!(store.tabs()[0].token.as_deref(), Some("996554"));
    assert_eq!(store.tabs()[0].time_remaining, 30);
}

#[test]
fn a_tick_clears_the_note_of_a_renewed_tab_only() {
    let mut store = with_tabs(2);
    store.update(Message::SecretKeyChanged(SECRET.to_string(), 0), 59);
    store.update(Message::CopyFinished(ClipboardReply::Copied, 0), 59);
    store.update(Message::CopyFinished(ClipboardReply::Copied, 1), 59);
    store.update(Message::Tick, 59);
    assert!(store.tabs()[0].message.is_some());
    store.update(Message::Tick, 60);
    assert!(store.tabs()[0].message.is_none());
    assert!(store.tabs()[1].message.is_some());
}

#[test]
fn a_tick_leaves_tabs_without_a_code_alone() {
    let mut store = with_tabs(2);
    store.update(Message::GenerateToken, 5);
    store.update(Message::Tick, 60);
    assert_eq!(error_text(&store.tabs()[1]).as_deref(), Some("Please enter a secret key"));
    assert!(store.tabs()[1].token.is_none());
    assert_eq!(store.tabs()[1].time_remaining, 30);
}

#[test]
fn copy_is_asked_for_the_code_without_spaces() {
    let mut store = TotpGenerator::default();
    store.update(Message::SecretKeyChanged(SECRET.to_string(), 0), 59);
    match store.update(Message::CopyToClipboard(0), 59) {
        Command::CopyText(text, 0) => assert_eq!(text, "996554"),
        other => panic!("{:?}", other),
    }
    assert!(store.tabs()[0].message.is_none());
}

#[test]
fn copy_is_not_asked_without_a_code_or_a_tab() {
    let mut store = TotpGenerator::default();
    assert!(is_nothing(&store.update(Message::CopyToClipboard(0), 59)));
    assert!(is_nothing(&store.update(Message::CopyToClipboard(1), 59)));
    assert!(is_nothing(&store.request_copy(7)));
}

#[test]
fn a_copied_code_leaves_a_note_to_be_cleared_later() {
    let mut store = TotpGenerator::default();
    store.update(Message::SecretKeyChanged(SECRET.to_string(), 0), 59);
    match store.update(Message::CopyFinished(ClipboardReply::Copied, 0), 59) {
        Command::ClearMessageAfter(seconds, 0) => {
            assert_eq!(seconds, 3);
            assert_eq!(seconds, NOTE_SECONDS);
        }
        other => panic!("{:?}", other),
    }
    match &store.tabs()[0].message {
        Some(notice) => {
            assert!(!notice.is_error());
            assert_eq!(notice.text(), "Code copied to clipboard!");
        }
        None => panic!("no note"),
    }
    assert!(is_nothing(&store.update(Message::ClearMessage(0), 62)));
    assert!(store.tabs()[0].message.is_none());
    assert_eq!(store.tabs()[0].token.as_deref(), Some("996554"));
}

#[test]
fn clipboard_failures_are_shown_with_their_reason() {
    let mut store = TotpGenerator::default();
    store.update(Message::SecretKeyChanged(SECRET.to_string(), 0), 59);
    let reply = ClipboardReply::Unavailable("no display".to_string());
    assert!(is_nothing(&store.update(Message::CopyFinished(reply, 0), 59)));
    assert_eq!(
        error_text(&store.tabs()[0]).as_deref(),
        Some("Failed to access clipboard: no display")
    );
    let reply = ClipboardReply::Refused("busy".to_string());
    assert!(is_nothing(&store.finish_copy(reply, 0)));
    let notice = store.tabs()[0].message.as_ref().unwrap();
    assert!(notice.is_error());
    assert_eq!(notice.text(), "Failed to copy to clipboard: busy");
}

#[test]
fn a_clipboard_answer_for_a_missing_tab_is_dropped() {
    let mut store = TotpGenerator::default();
    assert!(is_nothing(&store.update(Message::CopyFinished(ClipboardReply::Copied, 1), 0)));
    assert!(store.tabs()[0].message.is_none());
}

#[test]
fn a_late_clear_wipes_whatever_message_is_there() {
    let mut store = TotpGenerator::default();
    store.update(Message::CopyFinished(ClipboardReply::Copied, 0), 0);
    store.update(Message::GenerateToken, 1);
    assert!(error_text(&store.tabs()[0]).is_some());
    store.update(Message::ClearMessage(0), 3);
    assert!(store.tabs()[0].message.is_none());
}

#[test]
fn a_failure_in_one_tab_leaves_the_others_alone() {
    let mut store = with_tabs(2);
    store.update(Message::SecretKeyChanged(SECRET.to_string(), 0), 59);
    store.update(Message::GenerateToken, 59);
    assert!(error_text(&store.tabs()[1]).is_some());
    assert_eq!(store.tabs()[0].token.as_deref(), Some("996554"));
    assert!(store.tabs()[0].message.is_none());
}

#[test]
fn no_run_of_events_leaves_the_store_without_an_active_tab() {
    let mut store = TotpGenerator::default();
    let mut seed: u64 = 0x2545_F491_4F6C_DD1D;
    for round in 0..2000u64 {
        seed = seed.wrapping_mul(6364136223846793005).wrapping_add(1442695040888963407);
        let pick = (seed >> 33) % 9;
        let idx = ((seed >> 20) % 6) as usize;
        let message = match pick {
            0 if store.tabs().len() < 5 => Message::AddTab,
            0 | 1 | 2 => Message::RemoveTab(idx),
            3 => Message::SelectTab(idx),
            4 => Message::SecretKeyChanged(SECRET.to_string(), idx),
            5 => Message::SecretKeyChanged(String::new(), idx),
            6 => Message::Tick,
            7 => Message::GenerateToken,
            _ => Message::CopyFinished(ClipboardReply::Copied, idx),
        };
        store.update(message, round);
        assert!(!store.tabs().is_empty());
        assert!(store.active_tab() < store.tabs().len());
        for tab in store.tabs() {
            assert!(tab.time_remaining >= 1 && tab.time_remaining <= 30);
            if let Some(code) = &tab.token {
                assert_eq!(code.len(), 6);
                assert!(!tab.secret_key.is_empty());
            }
        }
    }
}
