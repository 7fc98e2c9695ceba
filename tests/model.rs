use rmux::{AppState, Effect, KeyCode, KeyEvent, LayoutKind, Mode, MOD_CONTROL};

fn key(c: char) -> KeyEvent {
    KeyEvent { code: KeyCode::Char(c), modifiers: 0 }
}

fn prefix() -> KeyEvent {
    KeyEvent { code: KeyCode::Char('b'), modifiers: MOD_CONTROL }
}

fn one_window() -> AppState<u32> {
    let mut app: AppState<u32> = AppState::new(500);
    app.create_window(1);
    app
}

fn press(app: &mut AppState<u32>, k: KeyEvent) -> Effect<u32> {
    app.handle_key(k, 0)
}

#[test]
fn startup_has_one_window_with_one_pane() {
    let app = one_window();
    assert_eq!(app.window_count(), 1);
    assert_eq!(app.active_idx, 0);
    assert_eq!(app.windows[0].panes, vec![1]);
    assert_eq!(app.windows[0].active_pane, 0);
    assert_eq!(app.windows[0].layout, LayoutKind::Horizontal);
    assert!(matches!(app.mode, Mode::Passthrough));
}

#[test]
fn typed_text_is_forwarded_to_the_active_pane() {
    let mut app = one_window();
    let mut sent: Vec<u8> = Vec::new();
    for c in "echo hi".chars() {
        match press(&mut app, key(c)) {
            Effect::Write(b) => sent.extend(b),
            _ => panic!("expected a write"),
        }
    }
    match press(&mut app, KeyEvent { code: KeyCode::Enter, modifiers: 0 }) {
        Effect::Write(b) => sent.extend(b),
        _ => panic!("expected a write"),
    }
    assert_eq!(sent, b"echo hi\r".to_vec());
}

#[test]
fn prefix_percent_splits_vertically() {
    let mut app = one_window();
    assert!(matches!(press(&mut app, prefix()), Effect::Nothing));
    assert!(matches!(app.mode, Mode::Prefix { armed_at: 0 }));
    match press(&mut app, key('%')) {
        Effect::Split(kind) => {
            assert_eq!(kind, LayoutKind::Vertical);
            app.split_active(2, kind);
        }
        _ => panic!("expected a split"),
    }
    assert!(matches!(app.mode, Mode::Passthrough));
    assert_eq!(app.windows[0].panes, vec![1, 2]);
    assert_eq!(app.windows[0].active_pane, 1);
    assert_eq!(app.windows[0].layout, LayoutKind::Vertical);
}

#[test]
fn prefix_quote_splits_horizontally() {
    let mut app = one_window();
    press(&mut app, prefix());
    assert!(matches!(press(&mut app, key('"')), Effect::Split(LayoutKind::Horizontal)));
}

#[test]
fn new_windows_then_cycle_back() {
    let mut app = one_window();
    for p in [2u32, 3] {
        press(&mut app, prefix());
        assert!(matches!(press(&mut app, key('c')), Effect::NewWindow));
        app.create_window(p);
    }
    assert_eq!(app.window_count(), 3);
    assert_eq!(app.active_idx, 2);
    press(&mut app, prefix());
    press(&mut app, key('n'));
    assert_eq!(app.active_idx, 0);
    for _ in 0..2 {
        press(&mut app, prefix());
        press(&mut app, key('n'));
    }
    assert_eq!(app.active_idx, 2);
}

#[test]
fn previous_window_wraps() {
    let mut app = one_window();
    app.create_window(2);
    app.create_window(3);
    app.select_window(1);
    press(&mut app, prefix());
    press(&mut app, key('p'));
    assert_eq!(app.active_idx, 2);
}

#[test]
fn next_window_count_times_returns() {
    let mut app = one_window();
    app.create_window(2);
    app.create_window(3);
    app.create_window(4);
    app.select_window(2);
    for _ in 0..app.window_count() {
        app.next_window();
    }
    assert_eq!(app.active_idx, 1);
}

#[test]
fn command_prompt_split_window_h() {
    let mut app = one_window();
    press(&mut app, prefix());
    press(&mut app, key(':'));
    assert!(matches!(&app.mode, Mode::CommandPrompt { input } if input.is_empty()));
    for c in "split-window -h".chars() {
        assert!(matches!(press(&mut app, key(c)), Effect::Nothing));
    }
    match press(&mut app, KeyEvent { code: KeyCode::Enter, modifiers: 0 }) {
        Effect::Split(kind) => {
            assert_eq!(kind, LayoutKind::Horizontal);
            app.split_active(2, kind);
        }
        _ => panic!("expected a split"),
    }
    assert!(matches!(app.mode, Mode::Passthrough));
    assert_eq!(app.windows[0].panes.len(), 2);
    assert_eq!(app.windows[0].layout, LayoutKind::Horizontal);
}

#[test]
fn prompt_backspace_and_escape() {
    let mut app = one_window();
    press(&mut app, prefix());
    press(&mut app, key(':'));
    press(&mut app, key('a'));
    press(&mut app, key('b'));
    press(&mut app, KeyEvent { code: KeyCode::Backspace, modifiers: 0 });
    assert!(matches!(&app.mode, Mode::CommandPrompt { input } if *input == vec!['a']));
    press(&mut app, KeyEvent { code: KeyCode::Backspace, modifiers: 0 });
    press(&mut app, KeyEvent { code: KeyCode::Backspace, modifiers: 0 });
    assert!(matches!(&app.mode, Mode::CommandPrompt { input } if input.is_empty()));
    press(&mut app, KeyEvent { code: KeyCode::Up, modifiers: 0 });
    assert!(matches!(&app.mode, Mode::CommandPrompt { .. }));
    press(&mut app, KeyEvent { code: KeyCode::Esc, modifiers: 0 });
    assert!(matches!(app.mode, Mode::Passthrough));
}

#[test]
fn prompt_select_window() {
    let mut app = one_window();
    app.create_window(2);
    app.create_window(3);
    press(&mut app, prefix());
    press(&mut app, key(':'));
    for c in "select-window -t 2".chars() {
        press(&mut app, key(c));
    }
    press(&mut app, KeyEvent { code: KeyCode::Enter, modifiers: 0 });
    assert_eq!(app.active_idx, 1);
}

#[test]
fn digit_beyond_window_count_is_ignored() {
    let mut app = one_window();
    app.create_window(2);
    press(&mut app, prefix());
    press(&mut app, key('5'));
    assert_eq!(app.active_idx, 1);
    assert!(matches!(app.mode, Mode::Passthrough));
    press(&mut app, prefix());
    press(&mut app, key('0'));
    assert_eq!(app.active_idx, 1);
    press(&mut app, prefix());
    press(&mut app, key('1'));
    assert_eq!(app.active_idx, 0);
}

#[test]
fn late_key_after_prefix_is_swallowed() {
    let mut app = one_window();
    app.handle_key(prefix(), 10);
    let e = app.handle_key(key('z'), 10_000);
    assert!(matches!(e, Effect::Nothing));
    assert!(matches!(app.mode, Mode::Passthrough));
    let e = app.handle_key(prefix(), 20_000);
    assert!(matches!(e, Effect::Nothing));
    let e = app.handle_key(key('b'), 20_001);
    assert!(matches!(e, Effect::Nothing));
}

#[test]
fn raw_control_b_arms_prefix() {
    let mut app = one_window();
    app.handle_key(key('\u{2}'), 7);
    assert!(matches!(app.mode, Mode::Prefix { armed_at: 7 }));
}

#[test]
fn control_q_quits_in_every_mode() {
    let q = KeyEvent { code: KeyCode::Char('q'), modifiers: MOD_CONTROL };
    let mut app = one_window();
    assert!(matches!(press(&mut app, q), Effect::Quit));
    press(&mut app, prefix());
    assert!(matches!(press(&mut app, q), Effect::Quit));
    assert!(matches!(app.mode, Mode::Prefix { .. }));
}

#[test]
fn split_then_kill_restores_pane_count() {
    let mut app = one_window();
    app.split_active(2, LayoutKind::Vertical);
    app.split_active(3, LayoutKind::Vertical);
    app.windows[0].active_pane = 0;
    app.split_active(4, LayoutKind::Horizontal);
    assert_eq!(app.windows[0].panes.len(), 4);
    assert_eq!(app.kill_active_pane(), Some(4));
    assert_eq!(app.windows[0].panes, vec![1, 2, 3]);
}

#[test]
fn kill_on_single_pane_is_refused() {
    let mut app = one_window();
    assert_eq!(app.kill_active_pane(), None);
    assert_eq!(app.windows[0].panes, vec![1]);
}

#[test]
fn kill_clamps_active_pane() {
    let mut app = one_window();
    app.split_active(2, LayoutKind::Vertical);
    app.split_active(3, LayoutKind::Vertical);
    assert_eq!(app.windows[0].active_pane, 2);
    press(&mut app, prefix());
    match press(&mut app, key('x')) {
        Effect::Killed(p) => assert_eq!(p, 3),
        _ => panic!("expected a kill"),
    }
    assert_eq!(app.windows[0].active_pane, 1);
    app.windows[0].active_pane = 0;
    assert_eq!(app.kill_active_pane(), Some(1));
    assert_eq!(app.windows[0].active_pane, 0);
    assert_eq!(app.windows[0].panes, vec![2]);
}

#[test]
fn reaping_last_pane_empties_session() {
    let mut app = one_window();
    assert!(app.reap(&vec![vec![true]]));
    assert_eq!(app.window_count(), 0);
    assert_eq!(app.active_idx, 0);
}

#[test]
fn reaping_nothing_changes_nothing() {
    let mut app = one_window();
    app.split_active(2, LayoutKind::Vertical);
    assert!(!app.reap(&vec![vec![false, false]]));
    assert_eq!(app.windows[0].panes, vec![1, 2]);
    assert_eq!(app.windows[0].active_pane, 1);
}

#[test]
fn reaping_pane_keeps_window_with_others() {
    let mut app = one_window();
    app.split_active(2, LayoutKind::Vertical);
    app.create_window(3);
    assert!(!app.reap(&vec![vec![false, true], vec![false]]));
    assert_eq!(app.windows[0].panes, vec![1]);
    assert_eq!(app.windows[0].active_pane, 0);
    assert_eq!(app.windows[0].layout, LayoutKind::Vertical);
    assert_eq!(app.active_idx, 1);
    assert!(!app.reap(&vec![vec![false], vec![true]]));
    assert_eq!(app.window_count(), 1);
    assert_eq!(app.active_idx, 0);
}

#[test]
fn reaping_keeps_active_index_when_in_range() {
    let mut app = one_window();
    app.split_active(2, LayoutKind::Horizontal);
    app.split_active(3, LayoutKind::Horizontal);
    app.split_active(4, LayoutKind::Horizontal);
    app.windows[0].active_pane = 1;
    app.create_window(5);
    app.create_window(6);
    app.select_window(2);
    assert!(!app.reap(&vec![vec![true, false, true, false], vec![true], vec![false]]));
    assert_eq!(app.windows[0].panes, vec![2, 4]);
    assert_eq!(app.windows[0].active_pane, 1);
    assert_eq!(app.window_count(), 2);
    assert_eq!(app.windows[1].panes, vec![6]);
    assert_eq!(app.active_idx, 1);
}
