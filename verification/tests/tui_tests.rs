use mize_dev::tui::{KeyAction, KeyCode, KeyInput, Tui, TuiState};

fn press(code: KeyCode) -> KeyInput {
    KeyInput { code, pressed: true, control_only: false }
}

#[test]
fn initial_state() {
    let s = TuiState::new();
    assert_eq!(s.selected, None);
    assert_eq!(s.scroll_offset, 0);
    assert_eq!(s.build_status, "idle");
    let mut t = Tui::new();
    assert!(!t.should_exit);
    assert!(t.tui_state.is_none());
    t.init_state();
    assert_eq!(t.tui_state, Some(TuiState::new()));
}

#[test]
fn released_keys_do_nothing() {
    let mut t = Tui::new();
    let k = KeyInput { code: KeyCode::Char('q'), pressed: false, control_only: false };
    assert_eq!(t.handle_key(k), KeyAction::Nothing);
    assert_eq!(t, Tui::new());
}

#[test]
fn quitting_keys() {
    let mut t = Tui::new();
    assert_eq!(t.handle_key(press(KeyCode::Char('q'))), KeyAction::StopDevShells);
    assert!(!t.should_exit);
    t.shells_stopped();
    assert!(t.should_exit);
    let mut t = Tui::new();
    assert_eq!(t.handle_key(press(KeyCode::Esc)), KeyAction::StopDevShells);
    assert!(!t.should_exit);
    let mut t = Tui::new();
    let ctrl_c = KeyInput { code: KeyCode::Char('c'), pressed: true, control_only: true };
    assert_eq!(t.handle_key(ctrl_c), KeyAction::Nothing);
    assert!(t.should_exit);
    let mut t = Tui::new();
    t.handle_key(press(KeyCode::Char('c')));
    assert!(!t.should_exit);
}

#[test]
fn selection_moves() {
    let mut t = Tui::new();
    t.handle_key(press(KeyCode::Down));
    assert_eq!(t.tui_state.as_ref().unwrap().selected, Some(0));
    t.handle_key(press(KeyCode::Char('j')));
    assert_eq!(t.tui_state.as_ref().unwrap().selected, Some(1));
    t.handle_key(press(KeyCode::Up));
    t.handle_key(press(KeyCode::Char('k')));
    assert_eq!(t.tui_state.as_ref().unwrap().selected, Some(0));
    t.handle_key(press(KeyCode::End));
    assert_eq!(t.tui_state.as_ref().unwrap().selected, Some(usize::MAX));
    t.handle_key(press(KeyCode::Char('j')));
    assert_eq!(t.tui_state.as_ref().unwrap().selected, Some(usize::MAX));
    t.handle_key(press(KeyCode::Home));
    assert_eq!(t.tui_state.as_ref().unwrap().selected, Some(0));
    let mut fresh = Tui::new();
    fresh.handle_key(press(KeyCode::Char('k')));
    assert_eq!(fresh.tui_state.as_ref().unwrap().selected, Some(usize::MAX));
}

#[test]
fn scrolling_stays_in_bounds() {
    let mut t = Tui::new();
    t.handle_key(press(KeyCode::Char('u')));
    assert_eq!(t.tui_state.as_ref().unwrap().scroll_offset, 0);
    t.handle_key(press(KeyCode::Char('i')));
    assert_eq!(t.tui_state.as_ref().unwrap().scroll_offset, 3);
    t.handle_key(press(KeyCode::Char('u')));
    assert_eq!(t.tui_state.as_ref().unwrap().scroll_offset, 3);
    t.scroll(false);
    t.scroll(false);
    assert_eq!(t.tui_state.as_ref().unwrap().scroll_offset, 9);
    t.scroll(true);
    assert_eq!(t.tui_state.as_ref().unwrap().scroll_offset, 6);
    let mut s = TuiState::new();
    s.scroll_offset = u16::MAX - 3;
    s.scroll_down();
    assert_eq!(s.scroll_offset, u16::MAX - 3);
    s.scroll_offset = u16::MAX - 4;
    s.scroll_down();
    assert_eq!(s.scroll_offset, u16::MAX - 1);
}

#[test]
fn scroll_round_trips() {
    for offset in [1u16, 4, 100, u16::MAX - 4] {
        let mut s = TuiState::new();
        s.scroll_offset = offset;
        s.scroll_down();
        s.scroll_up();
        assert_eq!(s.scroll_offset, offset);
    }
    let mut s = TuiState::new();
    s.scroll_offset = u16::MAX;
    s.scroll_up();
    s.scroll_down();
    assert_eq!(s.scroll_offset, u16::MAX - 3);
}

#[test]
fn build_key_and_others() {
    let mut t = Tui::new();
    assert_eq!(t.handle_key(press(KeyCode::Char('r'))), KeyAction::RunBuild);
    assert!(t.tui_state.is_none());
    assert_eq!(t.handle_key(press(KeyCode::Other)), KeyAction::Nothing);
    assert!(!t.should_exit);
}

#[test]
fn state_creates_it_when_missing() {
    let mut t = Tui::new();
    t.state().scroll_offset = 12;
    assert_eq!(t.tui_state.as_ref().unwrap().scroll_offset, 12);
}

#[test]
fn sessions_restart_with_state_kept() {
    let mut t = Tui::new();
    t.handle_key(press(KeyCode::Char('i')));
    t.shells_stopped();
    assert!(t.should_exit);
    t.begin_session();
    assert!(!t.should_exit);
    assert_eq!(t.tui_state.as_ref().unwrap().scroll_offset, 3);
}

#[test]
fn scroll_offset_stays_aligned() {
    let mut t = Tui::new();
    for _ in 0..30000 {
        t.handle_key(press(KeyCode::Char('i')));
    }
    let offset = t.tui_state.as_ref().unwrap().scroll_offset;
    assert_eq!(offset, 65532);
    for _ in 0..5 {
        t.scroll(true);
        t.handle_key(press(KeyCode::Char('i')));
        t.handle_key(press(KeyCode::Char('i')));
    }
    let offset = t.tui_state.as_ref().unwrap().scroll_offset;
    assert!(offset % 3 == 0 && offset <= 65532);
}
