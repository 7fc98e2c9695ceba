use vstd::prelude::*;

use crate::command::{Command, command_of, parse_command, words};
use crate::keys::{KeyCode, KeyEvent, forward_bytes, has_control, key_bytes};
use crate::model::{AppState, LayoutKind, Mode, killed, next_index, prev_index, prompt_text};

verus! {

/// What the host has to do after a key: the model changes that need no
/// outside work are already made.
pub enum Effect<P> {
    Nothing,
    /// Leave the session.
    Quit,
    /// Write these bytes to the active pane.
    Write(Vec<u8>),
    /// Open a pane and hand it to `AppState::create_window`.
    NewWindow,
    /// Open a pane and hand it to `AppState::split_active` with this layout.
    Split(LayoutKind),
    /// This pane was removed; its child is to be stopped.
    Killed(P),
}

/// The chord that ends the session in every mode: control+Q.
pub open spec fn is_quit(k: KeyEvent) -> bool {
    k.code == KeyCode::Char('q') && has_control(k)
}

/// Whether a key arms the prefix: the configured chord, or a raw 0x02.
pub open spec fn is_prefix<P>(s: AppState<P>, k: KeyEvent) -> bool {
    k == s.prefix_key || k.code == KeyCode::Char('\u{2}')
}

/// The command that a key names right after the prefix.
pub open spec fn prefix_command(code: KeyCode) -> Command {
    match code {
        KeyCode::Char(c) => if '0' <= c <= '9' {
            Command::SelectWindow((c as u32 - '0' as u32) as usize)
        } else if c == 'c' {
            Command::NewWindow
        } else if c == 'n' {
            Command::NextWindow
        } else if c == 'p' {
            Command::PreviousWindow
        } else if c == '%' {
            Command::SplitWindow(LayoutKind::Vertical)
        } else if c == '"' {
            Command::SplitWindow(LayoutKind::Horizontal)
        } else if c == 'x' {
            Command::KillPane
        } else {
            Command::Nothing
        },
        _ => Command::Nothing,
    }
}

/// The windows and selection are as they were.
pub open spec fn same_model<P>(o: AppState<P>, f: AppState<P>) -> bool {
    f.windows == o.windows && f.active_idx == o.active_idx
}

/// How carrying out `cmd` changes the windows and the selection, and what
/// it leaves for the host to do.
pub open spec fn applied<P>(o: AppState<P>, f: AppState<P>, cmd: Command, r: Effect<P>) -> bool {
    let n = o.windows@.len() as int;
    match cmd {
        Command::Nothing => same_model(o, f) && r is Nothing,
        Command::NewWindow => same_model(o, f) && r is NewWindow,
        Command::SplitWindow(k) => same_model(o, f) && r == Effect::<P>::Split(k),
        Command::KillPane => match r {
            Effect::Killed(p) => killed(o, f, Some(p)),
            Effect::Nothing => killed(o, f, None),
            _ => false,
        },
        Command::NextWindow => f.windows == o.windows && f.active_idx == next_index(
            o.active_idx as int,
            n,
        ) && r is Nothing,
        Command::PreviousWindow => f.windows == o.windows && f.active_idx == prev_index(
            o.active_idx as int,
            n,
        ) && r is Nothing,
        Command::SelectWindow(d) => f.windows == o.windows && f.active_idx == (if 1 <= d <= n {
            (d - 1) as usize
        } else {
            o.active_idx
        }) && r is Nothing,
    }
}

/// One key press, as a relation between the state before (`o`), the state
/// after (`f`) and what is left for the host (`r`).
pub open spec fn key_step<P>(
    o: AppState<P>,
    f: AppState<P>,
    key: KeyEvent,
    now_ms: u64,
    r: Effect<P>,
) -> bool {
    &&& is_quit(key) ==> r is Quit && f == o
    &&& !is_quit(key) && o.mode is Passthrough ==> {
        &&& same_model(o, f)
        &&& is_prefix(o, key) ==> r is Nothing && f.mode == Mode::Prefix { armed_at: now_ms }
        &&& !is_prefix(o, key) ==> f.mode is Passthrough && match key_bytes(key) {
            Some(b) => r matches Effect::Write(v) && v@ == b,
            None => r is Nothing,
        }
    }
    &&& !is_quit(key) && o.mode is Prefix ==> {
        &&& applied(o, f, prefix_command(key.code), r)
        &&& key.code == KeyCode::Char(':') ==> prompt_text(f.mode) == Some(Seq::<char>::empty())
        &&& key.code != KeyCode::Char(':') ==> f.mode is Passthrough
    }
    &&& !is_quit(key) && prompt_text(o.mode) is Some ==> prompt_step(
        o,
        f,
        key,
        prompt_text(o.mode)->Some_0,
        r,
    )
}

/// A key typed at the command prompt, whose text so far is `input`.
pub open spec fn prompt_step<P>(
    o: AppState<P>,
    f: AppState<P>,
    key: KeyEvent,
    input: Seq<char>,
    r: Effect<P>,
) -> bool {
    match key.code {
        KeyCode::Esc => same_model(o, f) && r is Nothing && f.mode is Passthrough,
        KeyCode::Enter => applied(o, f, command_of(words(input)), r) && f.mode is Passthrough,
        KeyCode::Backspace => same_model(o, f) && r is Nothing && prompt_text(f.mode) == Some(
            if input.len() > 0 {
                input.drop_last()
            } else {
                input
            },
        ),
        KeyCode::Char(c) => same_model(o, f) && r is Nothing && prompt_text(f.mode) == Some(
            input.push(c),
        ),
        _ => same_model(o, f) && r is Nothing && f.mode == o.mode,
    }
}

impl<P> AppState<P> {
    /// Carries out a command on the model.
    pub fn run_command(&mut self, cmd: Command) -> (r: Effect<P>)
        requires
            old(self).wf(),
            old(self).windows@.len() > 0,
        ensures
            final(self).wf(),
            final(self).windows@.len() > 0,
            applied(*old(self), *final(self), cmd, r),
            final(self).mode == old(self).mode,
            final(self).escape_time_ms == old(self).escape_time_ms,
            final(self).prefix_key == old(self).prefix_key,
    {
        match cmd {
            Command::Nothing => Effect::Nothing,
            Command::NewWindow => Effect::NewWindow,
            Command::SplitWindow(k) => Effect::Split(k),
            Command::KillPane => match self.kill_active_pane() {
                Some(p) => Effect::Killed(p),
                None => Effect::Nothing,
            },
            Command::NextWindow => {
                self.next_window();
                Effect::Nothing
            },
            Command::PreviousWindow => {
                self.prev_window();
                Effect::Nothing
            },
            Command::SelectWindow(d) => {
                self.select_window(d);
                Effect::Nothing
            },
        }
    }

    /// Carries out the line typed at the prompt and leaves the prompt.
    pub fn execute_command_prompt(&mut self) -> (r: Effect<P>)
        requires
            old(self).wf(),
            old(self).windows@.len() > 0,
        ensures
            final(self).wf(),
            final(self).windows@.len() > 0,
            final(self).mode is Passthrough,
            prompt_text(old(self).mode) is Some ==> applied(
                *old(self),
                *final(self),
                command_of(words(prompt_text(old(self).mode)->Some_0)),
                r,
            ),
            !(old(self).mode is CommandPrompt) ==> same_model(*old(self), *final(self))
                && r is Nothing,
            final(self).escape_time_ms == old(self).escape_time_ms,
            final(self).prefix_key == old(self).prefix_key,
    {
        let cmd = match &self.mode {
            Mode::CommandPrompt { input } => parse_command(input),
            _ => Command::Nothing,
        };
        self.mode = Mode::Passthrough;
        self.run_command(cmd)
    }

    /// Takes one key press from the host terminal. Control+Q quits in every
    /// mode. In passthrough mode the prefix arms the prefix mode and any
    /// other key is forwarded to the active pane. After the prefix, exactly
    /// one key is read as a command and the mode returns to passthrough
    /// (`:` opens the prompt); a key that names no command is swallowed,
    /// before or after `escape_time_ms`. At the prompt, Esc leaves, Enter
    /// runs the line, Backspace deletes and a character is typed.
    pub fn handle_key(&mut self, key: KeyEvent, now_ms: u64) -> (r: Effect<P>)
        requires
            old(self).wf(),
            old(self).windows@.len() > 0,
        ensures
            final(self).wf(),
            final(self).windows@.len() > 0,
            final(self).escape_time_ms == old(self).escape_time_ms,
            final(self).prefix_key == old(self).prefix_key,
            key_step(*old(self), *final(self), key, now_ms, r),
    {
        if key.code == KeyCode::Char('q') && key.modifiers & crate::keys::MOD_CONTROL != 0 {
            return Effect::Quit;
        }
        match self.mode {
            Mode::Passthrough => {
                if key == self.prefix_key || key.code == KeyCode::Char('\u{2}') {
                    self.mode = Mode::Prefix { armed_at: now_ms };
                    return Effect::Nothing;
                }
                match forward_bytes(key) {
                    Some(b) => Effect::Write(b),
                    None => Effect::Nothing,
                }
            },
            Mode::Prefix { .. } => {
                // The key is consumed whether or not the escape time has
                // passed: the prefix byte itself is never sent on.
                let cmd = match key.code {
                    KeyCode::Char(c) => {
                        if '0' <= c && c <= '9' {
                            Command::SelectWindow((c as u32 - '0' as u32) as usize)
                        } else if c == 'c' {
                            Command::NewWindow
                        } else if c == 'n' {
                            Command::NextWindow
                        } else if c == 'p' {
                            Command::PreviousWindow
                        } else if c == '%' {
                            Command::SplitWindow(LayoutKind::Vertical)
                        } else if c == '"' {
                            Command::SplitWindow(LayoutKind::Horizontal)
                        } else if c == 'x' {
                            Command::KillPane
                        } else {
                            Command::Nothing
                        }
                    },
                    _ => Command::Nothing,
                };
                self.mode = if key.code == KeyCode::Char(':') {
                    Mode::CommandPrompt { input: Vec::new() }
                } else {
                    Mode::Passthrough
                };
                self.run_command(cmd)
            },
            Mode::CommandPrompt { .. } => {
                match key.code {
                    KeyCode::Esc => {
                        self.mode = Mode::Passthrough;
                        Effect::Nothing
                    },
                    KeyCode::Enter => self.execute_command_prompt(),
                    KeyCode::Backspace => {
                        if let Mode::CommandPrompt { input } = &mut self.mode {
                            input.pop();
                        }
                        Effect::Nothing
                    },
                    KeyCode::Char(c) => {
                        if let Mode::CommandPrompt { input } = &mut self.mode {
                            input.push(c);
                        }
                        Effect::Nothing
                    },
                    _ => Effect::Nothing,
                }
            },
        }
    }
}

} // verus!
