use submodule_list::components::command::{
    Command, CommandBlocking, CommandInfo, Event, EventState, ScrollType,
};
use submodule_list::components::state::{SubmoduleInfo, SubmoduleStatus};
use submodule_list::components::submodules::{lookup_key, PopupCommand, SubmodulesListComponent};
use submodule_list::keys::key_code::{
    to_ascii_uppercase, KeyCode, KeyModifiers, MediaKeyCode, ALT, CONTROL, NONE, SHIFT,
};
use submodule_list::keys::key_list::{key_match, GituiKeyEvent, KeyEvent, KeysList};

fn plain(code: KeyCode) -> KeyEvent {
    KeyEvent::new(code, KeyModifiers::empty())
}

fn with(code: KeyCode, bits: u8) -> KeyEvent {
    KeyEvent::new(code, KeyModifiers { bits })
}

fn opened(count: usize) -> SubmodulesListComponent {
    let mut all = Vec::new();
    for i in 0..count {
        all.push(SubmoduleInfo {
            path: format!("p{}", i),
            short_id: None,
            full_id: None,
            url: None,
            status: SubmoduleStatus::Deleted,
        });
    }
    let mut popup = SubmodulesListComponent::new(KeysList::default());
    assert!(popup.open(Ok(all)).is_ok());
    popup
}

#[test]
fn modifier_bits_are_those_of_the_terminal() {
    assert_eq!(NONE, 0);
    assert_eq!(SHIFT, 1);
    assert_eq!(CONTROL, 2);
    assert_eq!(ALT, 4);
    assert_eq!(KeyModifiers::empty(), KeyModifiers { bits: 0 });
}

#[test]
fn modifiers_contain_and_unite() {
    let shift = KeyModifiers { bits: SHIFT };
    let control = KeyModifiers { bits: CONTROL };
    let both = shift.union(control);
    assert_eq!(both, KeyModifiers { bits: 3 });
    assert!(both.contains(shift));
    assert!(both.contains(control));
    assert!(!shift.contains(control));
    assert!(shift.contains(KeyModifiers::empty()));
}

#[test]
fn ascii_letters_are_raised() {
    assert_eq!(to_ascii_uppercase('a'), 'A');
    assert_eq!(to_ascii_uppercase('z'), 'Z');
    assert_eq!(to_ascii_uppercase('A'), 'A');
    assert_eq!(to_ascii_uppercase('1'), '1');
    assert_eq!(to_ascii_uppercase('é'), 'é');
    for c in ['a', 'm', 'z', 'Q', '{', '`', ' ', 'ß'] {
        assert_eq!(to_ascii_uppercase(c), c.to_ascii_uppercase());
    }
}

#[test]
fn key_match_compares_code_and_modifiers() {
    let binding = GituiKeyEvent::new(KeyCode::Char('c'), KeyModifiers { bits: CONTROL });
    assert!(key_match(&with(KeyCode::Char('c'), CONTROL), binding));
    assert!(!key_match(&plain(KeyCode::Char('c')), binding));
    assert!(!key_match(&with(KeyCode::Char('d'), CONTROL), binding));
    assert!(!key_match(&with(KeyCode::Char('c'), CONTROL | SHIFT), binding));
    let f5 = GituiKeyEvent::new(KeyCode::F(5), KeyModifiers::empty());
    assert!(key_match(&plain(KeyCode::F(5)), f5));
    assert!(!key_match(&plain(KeyCode::F(6)), f5));
    let media = GituiKeyEvent::new(KeyCode::Media(MediaKeyCode::Play), KeyModifiers::empty());
    assert!(key_match(&plain(KeyCode::Media(MediaKeyCode::Play)), media));
    assert!(!key_match(&plain(KeyCode::Media(MediaKeyCode::Stop)), media));
}

#[test]
fn key_match_does_not_fold_case() {
    let binding = GituiKeyEvent::new(KeyCode::Char('D'), KeyModifiers { bits: SHIFT });
    assert!(key_match(&with(KeyCode::Char('D'), SHIFT), binding));
    assert!(!key_match(&with(KeyCode::Char('d'), SHIFT), binding));
    assert!(!key_match(&plain(KeyCode::Char('D')), binding));
}

#[test]
fn chords_are_equal_up_to_case() {
    let upper = GituiKeyEvent::new(KeyCode::Char('D'), KeyModifiers::empty());
    let shifted = GituiKeyEvent::new(KeyCode::Char('d'), KeyModifiers { bits: SHIFT });
    let both = GituiKeyEvent::new(KeyCode::Char('D'), KeyModifiers { bits: SHIFT });
    let lower = GituiKeyEvent::new(KeyCode::Char('d'), KeyModifiers::empty());
    assert!(upper == shifted);
    assert!(upper == both);
    assert!(shifted == both);
    assert!(lower != upper);
    assert!(lower != shifted);
    assert!(lower == lower);
    let control = GituiKeyEvent::new(KeyCode::Char('d'), KeyModifiers { bits: CONTROL });
    assert!(control != lower);
    let shifted_digit = GituiKeyEvent::new(KeyCode::Char('1'), KeyModifiers { bits: SHIFT });
    let digit = GituiKeyEvent::new(KeyCode::Char('1'), KeyModifiers::empty());
    assert!(shifted_digit != digit);
    let up = GituiKeyEvent::new(KeyCode::Up, KeyModifiers::empty());
    let shift_up = GituiKeyEvent::new(KeyCode::Up, KeyModifiers { bits: SHIFT });
    assert!(up != shift_up);
    assert!(up == up);
}

#[test]
fn normalized_chord_carries_shift_and_the_upper_case_letter() {
    let shifted = GituiKeyEvent::new(KeyCode::Char('d'), KeyModifiers { bits: SHIFT });
    let normal = shifted.normalized();
    assert_eq!(normal.code, KeyCode::Char('D'));
    assert_eq!(normal.modifiers, KeyModifiers { bits: SHIFT });
    let upper = GituiKeyEvent::new(KeyCode::Char('D'), KeyModifiers { bits: CONTROL });
    let normal = upper.normalized();
    assert_eq!(normal.code, KeyCode::Char('D'));
    assert_eq!(normal.modifiers, KeyModifiers { bits: CONTROL | SHIFT });
    let enter = GituiKeyEvent::new(KeyCode::Enter, KeyModifiers { bits: SHIFT });
    assert_eq!(enter.normalized().code, KeyCode::Enter);
    assert_eq!(enter.normalized().modifiers, KeyModifiers { bits: SHIFT });
}

#[test]
fn default_bindings_of_the_popup() {
    let keys = KeysList::default();
    assert!(keys.exit_popup == GituiKeyEvent::new(KeyCode::Esc, KeyModifiers::empty()));
    assert!(keys.move_up == GituiKeyEvent::new(KeyCode::Up, KeyModifiers::empty()));
    assert!(keys.move_down == GituiKeyEvent::new(KeyCode::Down, KeyModifiers::empty()));
    assert!(keys.page_up == GituiKeyEvent::new(KeyCode::PageUp, KeyModifiers::empty()));
    assert!(keys.page_down == GituiKeyEvent::new(KeyCode::PageDown, KeyModifiers::empty()));
    assert!(keys.home == GituiKeyEvent::new(KeyCode::Home, KeyModifiers::empty()));
    assert!(keys.end == GituiKeyEvent::new(KeyCode::End, KeyModifiers::empty()));
    assert!(keys.cmd_bar_toggle == GituiKeyEvent::new(KeyCode::Char('.'), KeyModifiers::empty()));
}

#[test]
fn default_bindings_elsewhere() {
    let keys = KeysList::default();
    let shift = KeyModifiers { bits: SHIFT };
    let control = KeyModifiers { bits: CONTROL };
    assert_eq!(keys.tab_status.code, KeyCode::Char('1'));
    assert_eq!(keys.tab_status.modifiers, KeyModifiers::empty());
    assert_eq!(keys.tab_toggle_reverse.code, KeyCode::BackTab);
    assert_eq!(keys.tab_toggle_reverse.modifiers, shift);
    assert_eq!(keys.exit.code, KeyCode::Char('c'));
    assert_eq!(keys.exit.modifiers, control);
    assert_eq!(keys.quit.code, KeyCode::Char('q'));
    assert_eq!(keys.open_commit_editor.code, KeyCode::Char('e'));
    assert_eq!(keys.open_commit_editor.modifiers, control);
    assert_eq!(keys.tree_collapse_recursive.code, KeyCode::Left);
    assert_eq!(keys.tree_collapse_recursive.modifiers, shift);
    assert_eq!(keys.log_mark_commit.code, KeyCode::Char(' '));
    assert_eq!(keys.status_reset_item.code, KeyCode::Char('D'));
    assert_eq!(keys.status_reset_item.modifiers, shift);
    assert_eq!(keys.diff_reset_lines.code, KeyCode::Char('d'));
    assert_eq!(keys.diff_reset_lines.modifiers, KeyModifiers::empty());
    assert_eq!(keys.commit_amend.code, KeyCode::Char('a'));
    assert_eq!(keys.commit_amend.modifiers, control);
    assert_eq!(keys.tag_annotate.code, KeyCode::Char('a'));
    assert_eq!(keys.tag_annotate.modifiers, control);
    assert_eq!(keys.view_submodules.code, KeyCode::Char('S'));
    assert_eq!(keys.view_submodules.modifiers, shift);
    assert_eq!(keys.enter.code, KeyCode::Enter);
    assert_eq!(keys.stash_open.code, KeyCode::Right);
    assert_eq!(keys.force_push.code, KeyCode::Char('P'));
    assert_eq!(keys.force_push.modifiers, shift);
    assert_eq!(keys.pull.code, KeyCode::Char('f'));
    assert_eq!(keys.file_find.code, KeyCode::Char('f'));
}

#[test]
fn lookup_names_the_command_of_a_key() {
    let keys = KeysList::default();
    let navigate = |scroll| Some(PopupCommand::Navigate(scroll));
    assert_eq!(lookup_key(&keys, &plain(KeyCode::Esc)), Some(PopupCommand::Close));
    assert_eq!(lookup_key(&keys, &plain(KeyCode::Down)), navigate(ScrollType::LineForward));
    assert_eq!(lookup_key(&keys, &plain(KeyCode::Up)), navigate(ScrollType::LineBackward));
    assert_eq!(lookup_key(&keys, &plain(KeyCode::PageDown)), navigate(ScrollType::PageForward));
    assert_eq!(lookup_key(&keys, &plain(KeyCode::PageUp)), navigate(ScrollType::PageBackward));
    assert_eq!(lookup_key(&keys, &plain(KeyCode::Home)), navigate(ScrollType::Home));
    assert_eq!(lookup_key(&keys, &plain(KeyCode::End)), navigate(ScrollType::End));
    assert_eq!(lookup_key(&keys, &plain(KeyCode::Char('.'))), None);
    assert_eq!(lookup_key(&keys, &plain(KeyCode::Char('x'))), None);
    assert_eq!(lookup_key(&keys, &with(KeyCode::Down, SHIFT)), None);
}

#[test]
fn lookup_prefers_the_earlier_command_of_a_shared_chord() {
    let mut keys = KeysList::default();
    keys.move_down = keys.exit_popup;
    keys.end = keys.home;
    keys.page_up = keys.move_up;
    assert_eq!(lookup_key(&keys, &plain(KeyCode::Esc)), Some(PopupCommand::Close));
    assert_eq!(
        lookup_key(&keys, &plain(KeyCode::Home)),
        Some(PopupCommand::Navigate(ScrollType::Home))
    );
    assert_eq!(
        lookup_key(&keys, &plain(KeyCode::Up)),
        Some(PopupCommand::Navigate(ScrollType::LineBackward))
    );
    assert_eq!(lookup_key(&keys, &plain(KeyCode::Down)), None);
    assert_eq!(lookup_key(&keys, &plain(KeyCode::End)), None);
    assert_eq!(lookup_key(&keys, &plain(KeyCode::PageUp)), None);
}

#[test]
fn a_hidden_popup_takes_no_event() {
    let mut popup = opened(3);
    popup.close();
    assert_eq!(popup.event(&Event::Key(plain(KeyCode::Down))), EventState::NotConsumed);
    assert_eq!(popup.selection(), 0);
    assert_eq!(popup.event(&Event::Key(plain(KeyCode::Esc))), EventState::NotConsumed);
    assert_eq!(popup.event(&Event::Other), EventState::NotConsumed);
    assert!(!popup.is_visible());
}

#[test]
fn navigation_keys_move_the_selection() {
    let mut popup = opened(10);
    assert!(popup.draw_list(30, 4).is_ok());
    assert_eq!(popup.event(&Event::Key(plain(KeyCode::Down))), EventState::Consumed);
    assert_eq!(popup.selection(), 1);
    assert_eq!(popup.event(&Event::Key(plain(KeyCode::PageDown))), EventState::Consumed);
    assert_eq!(popup.selection(), 5);
    assert_eq!(popup.event(&Event::Key(plain(KeyCode::Up))), EventState::Consumed);
    assert_eq!(popup.selection(), 4);
    assert_eq!(popup.event(&Event::Key(plain(KeyCode::End))), EventState::Consumed);
    assert_eq!(popup.selection(), 9);
    assert_eq!(popup.event(&Event::Key(plain(KeyCode::PageUp))), EventState::Consumed);
    assert_eq!(popup.selection(), 5);
    assert_eq!(popup.event(&Event::Key(plain(KeyCode::Home))), EventState::Consumed);
    assert_eq!(popup.selection(), 0);
    assert!(popup.is_visible());
}

#[test]
fn the_close_key_hides_the_popup() {
    let mut popup = opened(3);
    popup.set_selection(2);
    assert_eq!(popup.event(&Event::Key(plain(KeyCode::Esc))), EventState::Consumed);
    assert!(!popup.is_visible());
    assert_eq!(popup.len(), 3);
    assert_eq!(popup.selection(), 2);
}

#[test]
fn the_command_bar_key_falls_through() {
    let mut popup = opened(3);
    assert_eq!(popup.event(&Event::Key(plain(KeyCode::Char('.')))), EventState::NotConsumed);
    assert!(popup.is_visible());
    assert_eq!(popup.selection(), 0);
}

#[test]
fn unrecognized_keys_fall_through() {
    let mut popup = opened(3);
    popup.set_selection(1);
    assert_eq!(popup.event(&Event::Key(plain(KeyCode::Char('x')))), EventState::NotConsumed);
    assert_eq!(popup.event(&Event::Key(with(KeyCode::Down, CONTROL))), EventState::NotConsumed);
    assert_eq!(popup.event(&Event::Key(plain(KeyCode::Enter))), EventState::NotConsumed);
    assert!(popup.is_visible());
    assert_eq!(popup.selection(), 1);
}

#[test]
fn events_that_are_no_key_presses_end_at_a_visible_popup() {
    let mut popup = opened(3);
    assert_eq!(popup.event(&Event::Other), EventState::Consumed);
    assert!(popup.is_visible());
    assert_eq!(popup.selection(), 0);
}

#[test]
fn the_popup_answers_to_the_bindings_it_was_made_with() {
    let mut keys = KeysList::default();
    keys.move_down = GituiKeyEvent::new(KeyCode::Char('j'), KeyModifiers::empty());
    keys.exit_popup = GituiKeyEvent::new(KeyCode::Char('q'), KeyModifiers::empty());
    let mut popup = SubmodulesListComponent::new(keys);
    let both = vec![
        SubmoduleInfo {
            path: "a".to_string(),
            short_id: None,
            full_id: None,
            url: None,
            status: SubmoduleStatus::Untracked,
        },
        SubmoduleInfo {
            path: "b".to_string(),
            short_id: None,
            full_id: None,
            url: None,
            status: SubmoduleStatus::Untracked,
        },
    ];
    assert!(popup.open(Ok(both)).is_ok());
    assert_eq!(popup.event(&Event::Key(plain(KeyCode::Down))), EventState::NotConsumed);
    assert_eq!(popup.selection(), 0);
    assert_eq!(popup.event(&Event::Key(plain(KeyCode::Char('j')))), EventState::Consumed);
    assert_eq!(popup.selection(), 1);
    assert_eq!(popup.event(&Event::Key(plain(KeyCode::Esc))), EventState::NotConsumed);
    assert!(popup.is_visible());
    assert_eq!(popup.event(&Event::Key(plain(KeyCode::Char('q')))), EventState::Consumed);
    assert!(!popup.is_visible());
}

#[test]
fn event_state_of_a_flag() {
    assert_eq!(EventState::from(true), EventState::Consumed);
    assert_eq!(EventState::from(false), EventState::NotConsumed);
    assert!(EventState::Consumed.is_consumed());
    assert!(!EventState::NotConsumed.is_consumed());
}

#[test]
fn a_visible_popup_offers_its_commands_alone() {
    let popup = opened(1);
    let mut out = vec![CommandInfo::new(Command::ClosePopup, false, false)];
    assert_eq!(popup.commands(&mut out, false), CommandBlocking::Blocking);
    assert_eq!(
        out,
        vec![
            CommandInfo { command: Command::Scroll, enabled: true, quick_bar: true },
            CommandInfo { command: Command::ClosePopup, enabled: true, quick_bar: true },
        ]
    );
}

#[test]
fn a_hidden_popup_offers_nothing_and_passes_on() {
    let popup = SubmodulesListComponent::new(KeysList::default());
    let before = vec![CommandInfo::new(Command::ClosePopup, false, false)];
    let mut out = before.clone();
    assert_eq!(popup.commands(&mut out, false), CommandBlocking::PassingOn);
    assert_eq!(out, before);
}

#[test]
fn forcing_all_commands_appends_them() {
    let hidden = SubmodulesListComponent::new(KeysList::default());
    let mut out = vec![CommandInfo::new(Command::ClosePopup, false, false)];
    assert_eq!(hidden.commands(&mut out, true), CommandBlocking::PassingOn);
    assert_eq!(out.len(), 3);
    assert_eq!(out[0], CommandInfo::new(Command::ClosePopup, false, false));
    assert_eq!(out[1], CommandInfo::new(Command::Scroll, true, true));
    assert_eq!(out[2], CommandInfo::new(Command::ClosePopup, true, true));
    let visible = opened(1);
    assert_eq!(visible.commands(&mut out, true), CommandBlocking::Blocking);
    assert_eq!(out.len(), 5);
}
