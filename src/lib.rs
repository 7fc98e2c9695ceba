//! A terminal multiplexer's coordination core: the window and pane model,
//! the key-driven input state machine, the command prompt, the geometry of
//! the compositor and the text it draws around the panes.
mod command;
mod geometry;
mod input;
mod keys;
mod laws;
mod layout;
mod model;
mod shell;
mod status;
mod style;

pub use command::{parse_command, parse_usize, split_words, word_is, is_whitespace, Command};
pub use geometry::{
    centered_span, cursor_position, fit_size, pane_percent, take_host_resize, PaneSize,
    RESIZE_DEBOUNCE_MS,
};
pub use input::Effect;
pub use keys::{encode_utf8, forward_bytes, KeyCode, KeyEvent, MOD_CONTROL, MOD_SHIFT};
pub use laws::{
    digit_out_of_range_keeps_window, kill_clamps_active_pane, next_window_cycles,
    plain_keys_are_forwarded, prefix_n_moves_forward,
    prefix_is_one_shot, prefix_never_writes, snap_settles, split_then_kill_restores_count,
};
pub use layout::{centered_rect, pane_areas, pane_frame, screen_areas, Area};
pub use model::{AppState, LayoutKind, Mode, Window};
pub use shell::{choose_shell, detect_shell, shell_probes};
pub use status::{chars_of, pane_title, status_line, status_line_now};
pub use style::{cell_colors, cursor_style_code, vt_to_color, HostColor, VtColor};
