use rmux::{
    cell_colors, centered_span, chars_of, choose_shell, cursor_position, cursor_style_code,
    encode_utf8, fit_size, forward_bytes, pane_percent, parse_command, parse_usize, split_words,
    status_line, vt_to_color, word_is, Command, HostColor, KeyCode, KeyEvent, LayoutKind, Mode,
    PaneSize, VtColor, MOD_CONTROL, MOD_SHIFT, take_host_resize, detect_shell,
    pane_title, shell_probes,
};

fn cv(s: &str) -> Vec<char> {
    s.chars().collect()
}

fn k(code: KeyCode) -> KeyEvent {
    KeyEvent { code, modifiers: 0 }
}

#[test]
fn forward_bytes_table() {
    assert_eq!(forward_bytes(k(KeyCode::Char('a'))), Some(vec![b'a']));
    assert_eq!(
        forward_bytes(KeyEvent { code: KeyCode::Char('A'), modifiers: MOD_SHIFT }),
        Some(vec![b'A'])
    );
    assert_eq!(forward_bytes(KeyEvent { code: KeyCode::Char('a'), modifiers: MOD_CONTROL }), None);
    assert_eq!(forward_bytes(k(KeyCode::Enter)), Some(vec![0x0d]));
    assert_eq!(forward_bytes(k(KeyCode::Tab)), Some(vec![0x09]));
    assert_eq!(forward_bytes(k(KeyCode::Backspace)), Some(vec![0x08]));
    assert_eq!(forward_bytes(k(KeyCode::Esc)), Some(vec![0x1b]));
    assert_eq!(forward_bytes(k(KeyCode::Left)), Some(b"\x1b[D".to_vec()));
    assert_eq!(forward_bytes(k(KeyCode::Right)), Some(b"\x1b[C".to_vec()));
    assert_eq!(forward_bytes(k(KeyCode::Up)), Some(b"\x1b[A".to_vec()));
    assert_eq!(forward_bytes(k(KeyCode::Down)), Some(b"\x1b[B".to_vec()));
    assert_eq!(forward_bytes(k(KeyCode::Other)), None);
}

#[test]
fn utf8_encoding_matches_std() {
    for c in ['a', '\u{7f}', '\u{80}', 'é', '\u{7ff}', '\u{800}', '€', '\u{ffff}', '\u{10000}', '😀', '\u{10ffff}'] {
        let mut buf = [0u8; 4];
        assert_eq!(encode_utf8(c), c.encode_utf8(&mut buf).as_bytes().to_vec());
    }
}

#[test]
fn words_split_on_whitespace() {
    assert_eq!(split_words(&cv("  split-window \t -h  ")), vec![cv("split-window"), cv("-h")]);
    assert_eq!(split_words(&cv("")), Vec::<Vec<char>>::new());
    assert_eq!(split_words(&cv("   ")), Vec::<Vec<char>>::new());
    assert_eq!(split_words(&cv("a\u{3000}b")), vec![cv("a"), cv("b")]);
    let line = "x  yy\u{a0}z\n";
    let expect: Vec<Vec<char>> = line.split_whitespace().map(cv).collect();
    assert_eq!(split_words(&cv(line)), expect);
}

#[test]
fn usize_parsing() {
    assert_eq!(parse_usize(&cv("3")), Some(3));
    assert_eq!(parse_usize(&cv("+3")), Some(3));
    assert_eq!(parse_usize(&cv("007")), Some(7));
    assert_eq!(parse_usize(&cv("")), None);
    assert_eq!(parse_usize(&cv("+")), None);
    assert_eq!(parse_usize(&cv("-1")), None);
    assert_eq!(parse_usize(&cv("1a")), None);
    assert_eq!(parse_usize(&cv(&usize::MAX.to_string())), Some(usize::MAX));
    assert_eq!(parse_usize(&cv("99999999999999999999999")), None);
}

#[test]
fn word_comparison() {
    assert!(word_is(&cv("kill-pane"), "kill-pane"));
    assert!(!word_is(&cv("kill-pan"), "kill-pane"));
    assert!(!word_is(&cv("kill-panes"), "kill-pane"));
}

#[test]
fn command_parsing() {
    assert_eq!(parse_command(&cv("")), Command::Nothing);
    assert_eq!(parse_command(&cv("new-window")), Command::NewWindow);
    assert_eq!(parse_command(&cv("split-window")), Command::SplitWindow(LayoutKind::Vertical));
    assert_eq!(parse_command(&cv("split-window -h")), Command::SplitWindow(LayoutKind::Horizontal));
    assert_eq!(parse_command(&cv(" kill-pane ")), Command::KillPane);
    assert_eq!(parse_command(&cv("next-window")), Command::NextWindow);
    assert_eq!(parse_command(&cv("previous-window")), Command::PreviousWindow);
    assert_eq!(parse_command(&cv("select-window -t 3")), Command::SelectWindow(3));
    assert_eq!(parse_command(&cv("select-window -t")), Command::Nothing);
    assert_eq!(parse_command(&cv("select-window -t x")), Command::Nothing);
    assert_eq!(parse_command(&cv("select-window 3")), Command::Nothing);
    assert_eq!(parse_command(&cv("bogus -h")), Command::Nothing);
}

#[test]
fn geometry_fit_and_snap() {
    assert_eq!(fit_size(0, 0), (1, 1));
    assert_eq!(fit_size(24, 80), (24, 80));
    let mut s = PaneSize { rows: 30, cols: 120 };
    assert!(s.snap(10, 40));
    assert_eq!(s, PaneSize { rows: 10, cols: 40 });
    assert!(!s.snap(10, 40));
    assert!(!s.snap(10, 40));
    assert!(s.snap(10, 41));
}

#[test]
fn cursor_is_clamped_into_pane() {
    assert_eq!(cursor_position(1, 2, 10, 20, 3, 4), (5, 5));
    assert_eq!(cursor_position(1, 2, 10, 20, 30, 40), (20, 11));
    assert_eq!(cursor_position(0, 0, 1, 1, 5, 5), (0, 0));
}

#[test]
fn layout_arithmetic() {
    assert_eq!(pane_percent(0), 100);
    assert_eq!(pane_percent(1), 100);
    assert_eq!(pane_percent(3), 33);
    assert_eq!(pane_percent(101), 0);
    assert_eq!(centered_span(0, 100, 80), (10, 80));
    assert_eq!(centered_span(5, 11, 80), (6, 8));
    assert_eq!(centered_span(0, 1000, 80), (100, 800));
    assert_eq!(centered_span(65535, 10, 50), (65535, 5));
}

#[test]
fn cursor_style_codes() {
    assert_eq!(cursor_style_code(&None, &None), 5);
    assert_eq!(cursor_style_code(&Some(cv("block")), &None), 1);
    assert_eq!(cursor_style_code(&Some(cv("block")), &Some(cv("0"))), 2);
    assert_eq!(cursor_style_code(&Some(cv("underline")), &Some(cv("1"))), 3);
    assert_eq!(cursor_style_code(&Some(cv("underline")), &Some(cv("0"))), 4);
    assert_eq!(cursor_style_code(&Some(cv("beam")), &Some(cv("0"))), 6);
    assert_eq!(cursor_style_code(&Some(cv("bar")), &Some(cv("yes"))), 5);
    assert_eq!(cursor_style_code(&Some(cv("weird")), &Some(cv("00"))), 5);
}

#[test]
fn colors_translate() {
    assert_eq!(vt_to_color(VtColor::Default), HostColor::Reset);
    assert_eq!(vt_to_color(VtColor::Idx(0)), HostColor::Black);
    assert_eq!(vt_to_color(VtColor::Idx(9)), HostColor::LightRed);
    assert_eq!(vt_to_color(VtColor::Idx(15)), HostColor::White);
    assert_eq!(vt_to_color(VtColor::Idx(16)), HostColor::Reset);
    assert_eq!(vt_to_color(VtColor::Rgb(1, 2, 3)), HostColor::Rgb(1, 2, 3));
    assert_eq!(cell_colors(VtColor::Idx(1), VtColor::Default, false), (HostColor::Red, HostColor::Reset));
    assert_eq!(cell_colors(VtColor::Idx(1), VtColor::Default, true), (HostColor::Reset, HostColor::Red));
}

#[test]
fn status_text() {
    let t = cv("12:34");
    let s: String = status_line(&Mode::Passthrough, 3, 1, &t).into_iter().collect();
    assert_eq!(s, "  | 1 #[2] 3 | 12:34 ");
    let s: String = status_line(&Mode::Prefix { armed_at: 0 }, 1, 0, &t).into_iter().collect();
    assert_eq!(s, " PREFIX | #[1] | 12:34 ");
    let m = Mode::CommandPrompt { input: vec![] };
    let s: String = status_line(&m, 12, 11, &t).into_iter().collect();
    assert_eq!(s, " : | 1 2 3 4 5 6 7 8 9 10 11 #[12] | 12:34 ");
}

#[test]
fn string_chars() {
    assert_eq!(chars_of("héllo"), cv("héllo"));
}

#[test]
fn shell_choice_order() {
    assert_eq!(choose_shell(Some("/a/pwsh".to_string()), Some("/b/cmd".to_string())), "/a/pwsh");
    assert_eq!(choose_shell(None, Some("/b/cmd".to_string())), "/b/cmd");
    assert_eq!(choose_shell(None, None), "pwsh.exe");
}

#[test]
fn host_resize_is_debounced_and_recorded() {
    let mut size = PaneSize { rows: 10, cols: 40 };
    let mut last: u64 = 0;
    assert!(!take_host_resize(&mut size, &mut last, 49, 50, 200));
    assert_eq!(size, PaneSize { rows: 10, cols: 40 });
    assert_eq!(last, 0);
    assert!(take_host_resize(&mut size, &mut last, 50, 50, 200));
    assert_eq!(size, PaneSize { rows: 50, cols: 200 });
    assert_eq!(last, 50);
    assert!(!take_host_resize(&mut size, &mut last, 99, 60, 210));
    assert!(take_host_resize(&mut size, &mut last, 100, 60, 210));
    assert_eq!(size, PaneSize { rows: 60, cols: 210 });
    // The next render sees the drift from the pane's frame and snaps back.
    assert!(size.snap(10, 40));
}

#[test]
fn detected_shell_is_never_empty() {
    assert!(!detect_shell().is_empty());
}

#[test]
fn status_now_shows_clock() {
    let s: String = rmux::status_line_now(&Mode::Passthrough, 1, 0).into_iter().collect();
    let t: Vec<char> = s.trim_end().chars().rev().take(5).collect::<Vec<char>>().into_iter().rev().collect();
    assert!(t[0].is_ascii_digit() && t[1].is_ascii_digit() && t[2] == ':');
    assert!(t[3].is_ascii_digit() && t[4].is_ascii_digit());
    assert!(s.starts_with("  | #[1] | "));
}

#[test]
fn pane_titles() {
    let t: String = pane_title(0, true).into_iter().collect();
    assert_eq!(t, "* pane 1");
    let t: String = pane_title(9, false).into_iter().collect();
    assert_eq!(t, "  pane 10");
}

#[test]
fn shells_probed_in_order() {
    assert_eq!(shell_probes(), ("pwsh", "cmd"));
}
