//! The session shared by the input reader, the output relay and the
//! controller: the edit buffer and its cursor, the rendering of the prompt
//! line, and the decisions taken on each key and on stop.
use vstd::prelude::*;
use vstd::string::*;

use crate::config::RlwrapConfig;
use crate::text::{clear_line, clear_line_text, goto, goto_text, push_chars, string_of};

verus! {

/// Descriptor number of standard input.
pub const STDIN_FD: i32 = 0;

/// Descriptor number of standard output.
pub const STDOUT_FD: i32 = 1;

/// Descriptor number of standard error.
pub const STDERR_FD: i32 = 2;

/// The descriptors a session owns: saved duplicates of the original
/// standard streams, and the master side of the pseudo-terminal.
#[derive(Clone, Copy, Debug, PartialEq, Eq, Structural)]
pub struct Descriptors {
    pub stdin: i32,
    pub stdout: i32,
    pub stderr: i32,
    pub pty: i32,
}

/// One descriptor operation, for the caller to carry out in order.
#[derive(Clone, Copy, Debug, PartialEq, Eq, Structural)]
pub enum FdOp {
    /// Duplicate `saved` onto `target` (`dup2(saved, target)`).
    Redirect { saved: i32, target: i32 },
    /// Close the descriptor.
    Close(i32),
}

/// A decoded key press.
#[derive(Clone, Copy, Debug, PartialEq, Eq, Structural)]
pub enum Key {
    /// A printable character; `'\n'` is the line break.
    Char(char),
    /// A character typed with Ctrl held: `'d'` is end-of-file, `'c'` interrupt.
    Ctrl(char),
    Backspace,
    Left,
    Right,
    /// Any other key; it changes nothing.
    Other,
}

/// Why an operation on a session was refused.
#[derive(Clone, Copy, Debug, PartialEq, Eq, Structural)]
pub enum SessionError {
    /// The session was already stopped.
    NotRunning,
}

/// What the caller must do after a key was handled, before redrawing.
pub enum KeyOutcome {
    /// Nothing beyond the redraw.
    Edited,
    /// Write this text to the pseudo-terminal master.
    Submit(String),
    /// Raise an interrupt signal against the process. With `Some`, first
    /// carry out these operations, which release the session, and then
    /// mark it stopped with `Session::finish_stop`.
    Interrupt(Option<Vec<FdOp>>),
}

/// Where the text of a printed line goes.
pub enum Printed {
    /// To the real terminal, above the prompt line.
    Terminal(String),
    /// To the process's own standard output: the terminal is gone.
    Stdout(String),
}

/// The effect of a key, as a mathematical value.
pub enum Effect {
    Nothing,
    Forward(Seq<char>),
    /// An interrupt signal; `true` when the session was stopped for it.
    Interrupt(bool),
}

impl KeyOutcome {
    pub open spec fn effect(&self) -> Effect {
        match self {
            KeyOutcome::Edited => Effect::Nothing,
            KeyOutcome::Submit(t) => Effect::Forward(t@),
            KeyOutcome::Interrupt(ops) => Effect::Interrupt(ops is Some),
        }
    }
}

/// The abstract state of a session.
pub struct SessionView {
    pub running: bool,
    /// Whether the real terminal is still held for output.
    pub sink: bool,
    /// Whether a graceful stop is under way: the standard streams are being
    /// put back, and the controller finishes the release.
    pub draining: bool,
    pub buffer: Seq<char>,
    pub cursor: nat,
    pub prefix: Seq<char>,
    pub stop_on_ctrl_c: bool,
    /// (columns, rows) of the terminal.
    pub size: (u16, u16),
    pub fds: Descriptors,
}

/// The buffer and cursor after an edit key.
pub open spec fn edit(buffer: Seq<char>, cursor: nat, key: Key) -> (Seq<char>, nat) {
    match key {
        Key::Char(c) => if c == '\n' {
            (Seq::empty(), 0)
        } else {
            (buffer.insert(cursor as int, c), cursor + 1)
        },
        Key::Ctrl(c) => if c == 'd' {
            (Seq::empty(), 0)
        } else {
            (buffer, cursor)
        },
        Key::Backspace => if buffer.len() > 0 && cursor > 0 {
            (buffer.remove(cursor - 1), (cursor - 1) as nat)
        } else {
            (buffer, cursor)
        },
        Key::Left => if cursor > 0 {
            (buffer, (cursor - 1) as nat)
        } else {
            (buffer, cursor)
        },
        Key::Right => if cursor < buffer.len() {
            (buffer, cursor + 1)
        } else {
            (buffer, cursor)
        },
        Key::Other => (buffer, cursor),
    }
}

/// Whether the interrupt key releases the session `s` before the signal is
/// raised: it does for a running session configured to stop on interrupt,
/// also one whose earlier release has not been finished, unless a graceful
/// stop is under way, which the controller is sure to finish. A stopped
/// session is left as it is. The signal is raised in every case.
pub open spec fn releases_on_interrupt(s: SessionView) -> bool {
    s.running && s.stop_on_ctrl_c && !s.draining
}

/// What a key asks of the outside world.
pub open spec fn key_effect(s: SessionView, key: Key) -> Effect {
    match key {
        Key::Char(c) => if c == '\n' {
            Effect::Forward(s.buffer.insert(s.cursor as int, c))
        } else {
            Effect::Nothing
        },
        Key::Ctrl(c) => if c == 'd' {
            Effect::Forward(s.buffer.push('\u{4}'))
        } else if c == 'c' {
            Effect::Interrupt(releases_on_interrupt(s))
        } else {
            Effect::Nothing
        },
        _ => Effect::Nothing,
    }
}

/// The session while its release is under way: the terminal is given
/// back, and the session is still running until the release has succeeded.
pub open spec fn releasing(s: SessionView) -> SessionView {
    SessionView {
        running: s.running,
        sink: false,
        draining: s.draining,
        buffer: s.buffer,
        cursor: s.cursor,
        prefix: s.prefix,
        stop_on_ctrl_c: s.stop_on_ctrl_c,
        size: s.size,
        fds: s.fds,
    }
}

/// The session once a graceful stop has begun: the terminal is given back
/// and the standard streams are being put back.
pub open spec fn draining_from(s: SessionView) -> SessionView {
    SessionView {
        running: s.running,
        sink: false,
        draining: true,
        buffer: s.buffer,
        cursor: s.cursor,
        prefix: s.prefix,
        stop_on_ctrl_c: s.stop_on_ctrl_c,
        size: s.size,
        fds: s.fds,
    }
}

/// The session once its release has succeeded.
pub open spec fn after_stop(s: SessionView) -> SessionView {
    SessionView {
        running: false,
        sink: false,
        draining: false,
        buffer: s.buffer,
        cursor: s.cursor,
        prefix: s.prefix,
        stop_on_ctrl_c: s.stop_on_ctrl_c,
        size: s.size,
        fds: s.fds,
    }
}

/// The session after a key.
pub open spec fn after_key(s: SessionView, key: Key) -> SessionView {
    let e = edit(s.buffer, s.cursor, key);
    let released = key == Key::Ctrl('c') && releases_on_interrupt(s);
    SessionView {
        running: s.running,
        sink: s.sink && !released,
        draining: s.draining,
        buffer: e.0,
        cursor: e.1,
        prefix: s.prefix,
        stop_on_ctrl_c: s.stop_on_ctrl_c,
        size: s.size,
        fds: s.fds,
    }
}

/// The operations that put the original standard streams back.
pub open spec fn restore_plan(fds: Descriptors) -> Seq<FdOp> {
    seq![
        FdOp::Redirect { saved: fds.stdin, target: STDIN_FD },
        FdOp::Redirect { saved: fds.stdout, target: STDOUT_FD },
        FdOp::Redirect { saved: fds.stderr, target: STDERR_FD },
    ]
}

/// The operations that close the pseudo-terminal master and the saved
/// duplicates.
pub open spec fn close_plan(fds: Descriptors) -> Seq<FdOp> {
    seq![FdOp::Close(fds.pty), FdOp::Close(fds.stdin), FdOp::Close(fds.stdout), FdOp::Close(fds.stderr)]
}

/// The operations that release a session's descriptors: the original
/// standard streams are put back, then the pseudo-terminal master and the
/// saved duplicates are closed.
pub open spec fn stop_plan(fds: Descriptors) -> Seq<FdOp> {
    restore_plan(fds) + close_plan(fds)
}

/// The 1-based column of the cursor after `prefix_len` characters of
/// prefix and `cursor` of buffer, kept within what a column can hold.
pub open spec fn cursor_column(prefix_len: nat, cursor: nat) -> u16 {
    if prefix_len + cursor + 1 <= u16::MAX {
        (prefix_len + cursor + 1) as u16
    } else {
        u16::MAX
    }
}

/// The text that draws the prompt line on the last row: clear the row,
/// write prefix and buffer, and put the cursor at its place.
pub open spec fn line_text(s: SessionView) -> Seq<char> {
    goto_text(0, s.size.1) + clear_line_text() + seq!['\r'] + s.prefix + s.buffer + goto_text(
        cursor_column(s.prefix.len(), s.cursor),
        s.size.1,
    )
}

/// What a redraw writes: the prompt line, while the terminal is held.
pub open spec fn redraw_of(s: SessionView) -> Option<Seq<char>> {
    if s.sink {
        Some(line_text(s))
    } else {
        None
    }
}

/// Shared state of a running prompt.
pub struct Session {
    running: bool,
    sink: bool,
    draining: bool,
    fds: Descriptors,
    buffer: Vec<char>,
    cursor: usize,
    /// Configuration of the prompt.
    pub config: RlwrapConfig,
    /// Terminal size as (columns, rows).
    pub terminal_size: (u16, u16),
}

impl View for Session {
    type V = SessionView;

    closed spec fn view(&self) -> SessionView {
        SessionView {
            running: self.running,
            sink: self.sink,
            draining: self.draining,
            buffer: self.buffer@,
            cursor: self.cursor as nat,
            prefix: self.config.prefix@,
            stop_on_ctrl_c: self.config.stop_on_ctrl_c,
            size: self.terminal_size,
            fds: self.fds,
        }
    }
}

impl Session {
    /// The cursor stands within the buffer.
    pub open spec fn wf(&self) -> bool {
        self@.cursor <= self@.buffer.len()
    }

    /// A running session with an empty line, holding the terminal for
    /// output, that owns `fds`.
    pub fn new(config: RlwrapConfig, fds: Descriptors, terminal_size: (u16, u16)) -> (r: Session)
        ensures
            r.wf(),
            r@.running,
            r@.sink,
            !r@.draining,
            r@.buffer == Seq::<char>::empty(),
            r@.cursor == 0,
            r@.prefix == config.prefix@,
            r@.stop_on_ctrl_c == config.stop_on_ctrl_c,
            r@.size == terminal_size,
            r@.fds == fds,
    {
        Session {
            running: true,
            sink: true,
            draining: false,
            fds,
            buffer: Vec::new(),
            cursor: 0,
            config,
            terminal_size,
        }
    }

    pub fn is_running(&self) -> (r: bool)
        ensures
            r == self@.running,
    {
        self.running
    }

    /// Whether a graceful stop is under way.
    pub fn is_draining(&self) -> (r: bool)
        ensures
            r == self@.draining,
    {
        self.draining
    }

    /// Whether the real terminal is still held for output.
    pub fn has_output(&self) -> (r: bool)
        ensures
            r == self@.sink,
    {
        self.sink
    }

    pub fn descriptors(&self) -> (r: Descriptors)
        ensures
            r == self@.fds,
    {
        self.fds
    }

    /// The line being edited.
    pub fn buffer(&self) -> (r: String)
        ensures
            r@ == self@.buffer,
    {
        string_of(&self.buffer)
    }

    /// The cursor's position in the line.
    pub fn cursor(&self) -> (r: usize)
        ensures
            r == self@.cursor,
    {
        self.cursor
    }
}

impl Session {
    /// The prompt line as text, whatever the state of the terminal.
    fn line(&self) -> (r: String)
        ensures
            r@ == line_text(self@),
    {
        let rows = self.terminal_size.1;
        let prefix_len = self.config.prefix.as_str().unicode_len();
        let room: usize = 65534;
        let col: u16 = if prefix_len <= room && self.cursor <= room - prefix_len {
            (prefix_len + self.cursor + 1) as u16
        } else {
            65535
        };
        let mut out = goto(0, rows);
        let clear = clear_line();
        out.append(clear.as_str());
        proof {
            reveal_strlit("\r");
        }
        out.append("\r");
        out.append(self.config.prefix.as_str());
        push_chars(&mut out, &self.buffer);
        let to_cursor = goto(col, rows);
        out.append(to_cursor.as_str());
        assert(out@ =~= line_text(self@));
        out
    }

    /// What to write to the real terminal to show the prompt line: `None`
    /// once the terminal has been given back.
    pub fn redraw(&self) -> (r: Option<String>)
        ensures
            r matches Some(t) ==> redraw_of(self@) == Some(t@),
            r is None <==> redraw_of(self@) is None,
    {
        if self.sink {
            Some(self.line())
        } else {
            None
        }
    }

    /// Where and what to write so that `line` shows above the prompt line:
    /// on the terminal the current line is cleared, `line` written with a
    /// line break and the prompt line drawn again; once the terminal has
    /// been given back, `line` goes to standard output with a line break.
    pub fn print(&self, line: &str) -> (r: Printed)
        ensures
            self@.sink ==> (r matches Printed::Terminal(t) && t@ == clear_line_text() + seq!['\r']
                + line@ + seq!['\r', '\n'] + line_text(self@)),
            !self@.sink ==> (r matches Printed::Stdout(t) && t@ == line@ + seq!['\n']),
    {
        proof {
            reveal_strlit("\r");
            reveal_strlit("\r\n");
            reveal_strlit("\n");
        }
        if self.sink {
            let mut out = clear_line();
            out.append("\r");
            out.append(line);
            out.append("\r\n");
            let drawn = self.line();
            out.append(drawn.as_str());
            Printed::Terminal(out)
        } else {
            let mut out = String::from_str(line);
            out.append("\n");
            Printed::Stdout(out)
        }
    }

    /// Starts stopping the session: the terminal is no longer held for
    /// output, and the returned operations, carried out in order, release
    /// its descriptors. The session stays running until `finish_stop`,
    /// which the caller makes once every operation has succeeded; after a
    /// failed operation a second `stop` hands out the operations again. A
    /// stopped session is refused, and nothing is to be done.
    pub fn stop(&mut self) -> (r: Result<Vec<FdOp>, SessionError>)
        requires
            old(self).wf(),
        ensures
            final(self).wf(),
            old(self)@.running ==> (r matches Ok(ops) && ops@ == stop_plan(old(self)@.fds)
                && final(self)@ == releasing(old(self)@)),
            !old(self)@.running ==> r == Err::<Vec<FdOp>, SessionError>(SessionError::NotRunning)
                && final(self)@ == old(self)@,
    {
        if !self.running {
            return Err(SessionError::NotRunning);
        }
        self.sink = false;
        let fds = self.fds;
        let ops = vec![
            FdOp::Redirect { saved: fds.stdin, target: STDIN_FD },
            FdOp::Redirect { saved: fds.stdout, target: STDOUT_FD },
            FdOp::Redirect { saved: fds.stderr, target: STDERR_FD },
            FdOp::Close(fds.pty),
            FdOp::Close(fds.stdin),
            FdOp::Close(fds.stdout),
            FdOp::Close(fds.stderr),
        ];
        assert(ops@ =~= stop_plan(fds));
        Ok(ops)
    }

    /// Marks the session stopped, once the operations that `stop` handed
    /// out have all been carried out.
    pub fn finish_stop(&mut self)
        requires
            old(self).wf(),
        ensures
            final(self).wf(),
            final(self)@ == after_stop(old(self)@),
    {
        self.sink = false;
        self.draining = false;
        self.running = false;
    }

    /// Begins a graceful stop: the terminal is no longer held for output,
    /// and two lists of operations are handed out. The first puts the
    /// standard streams back; the caller then lets the output relay read to
    /// the end, carries out the second, which closes the descriptors, and
    /// calls `finish_stop`. Together they are the operations of `stop`. A
    /// stopped session is refused, and nothing is to be done.
    pub fn begin_graceful_stop(&mut self) -> (r: Result<(Vec<FdOp>, Vec<FdOp>), SessionError>)
        requires
            old(self).wf(),
        ensures
            final(self).wf(),
            old(self)@.running ==> (r matches Ok((restores, closes)) && restores@ == restore_plan(
                old(self)@.fds,
            ) && closes@ == close_plan(old(self)@.fds) && final(self)@ == draining_from(
                old(self)@,
            )),
            !old(self)@.running ==> r == Err::<(Vec<FdOp>, Vec<FdOp>), SessionError>(
                SessionError::NotRunning,
            ) && final(self)@ == old(self)@,
    {
        if !self.running {
            return Err(SessionError::NotRunning);
        }
        self.sink = false;
        self.draining = true;
        let fds = self.fds;
        let restores = vec![
            FdOp::Redirect { saved: fds.stdin, target: STDIN_FD },
            FdOp::Redirect { saved: fds.stdout, target: STDOUT_FD },
            FdOp::Redirect { saved: fds.stderr, target: STDERR_FD },
        ];
        let closes = vec![
            FdOp::Close(fds.pty),
            FdOp::Close(fds.stdin),
            FdOp::Close(fds.stdout),
            FdOp::Close(fds.stderr),
        ];
        assert(restores@ =~= restore_plan(fds));
        assert(closes@ =~= close_plan(fds));
        Ok((restores, closes))
    }

    /// Hands the edit line over: its text, then an empty line.
    fn submit(&mut self) -> (r: String)
        requires
            old(self).wf(),
        ensures
            r@ == old(self)@.buffer,
            final(self)@ == (SessionView { buffer: Seq::empty(), cursor: 0, ..old(self)@ }),
    {
        let text = string_of(&self.buffer);
        self.buffer.clear();
        self.cursor = 0;
        text
    }

    /// Handles one key press: the line is edited, a finished line is handed
    /// over, and the interrupt key starts stopping the session where it is
    /// configured to. The caller then carries out the outcome and redraws.
    pub fn handle_key(&mut self, key: Key) -> (r: KeyOutcome)
        requires
            old(self).wf(),
        ensures
            final(self).wf(),
            final(self)@ == after_key(old(self)@, key),
            r.effect() == key_effect(old(self)@, key),
            r matches KeyOutcome::Interrupt(Some(ops)) ==> ops@ == stop_plan(old(self)@.fds),
    {
        match key {
            Key::Char(c) => {
                self.buffer.insert(self.cursor, c);
                let len = self.buffer.len();
                assert(self.cursor < len);
                self.cursor = self.cursor + 1;
                if c == '\n' {
                    KeyOutcome::Submit(self.submit())
                } else {
                    KeyOutcome::Edited
                }
            },
            Key::Ctrl(c) => {
                if c == 'd' {
                    self.buffer.push('\u{4}');
                    KeyOutcome::Submit(self.submit())
                } else if c == 'c' {
                    if self.config.stop_on_ctrl_c && self.running && !self.draining {
                        match self.stop() {
                            Ok(ops) => KeyOutcome::Interrupt(Some(ops)),
                            Err(_) => KeyOutcome::Interrupt(None),
                        }
                    } else {
                        KeyOutcome::Interrupt(None)
                    }
                } else {
                    KeyOutcome::Edited
                }
            },
            Key::Backspace => {
                if self.buffer.len() > 0 && self.cursor > 0 {
                    self.buffer.remove(self.cursor - 1);
                    self.cursor = self.cursor - 1;
                }
                KeyOutcome::Edited
            },
            Key::Left => {
                if self.cursor > 0 {
                    self.cursor = self.cursor - 1;
                }
                KeyOutcome::Edited
            },
            Key::Right => {
                if self.cursor < self.buffer.len() {
                    self.cursor = self.cursor + 1;
                }
                KeyOutcome::Edited
            },
            Key::Other => KeyOutcome::Edited,
        }
    }
}

} // verus!
