use vstd::prelude::*;

use crate::terminal::MovementDirection;
use crate::user_configuration::UserControls;
use crate::view::{MoveError, TitleScreen, View};
use vstd::view::View as _;

verus! {

#[derive(Clone, Copy, Debug, PartialEq, Eq, Structural)]
pub enum EditorMode {
    Normal,
    Insert,
}

/// A key, as the input source names it.
#[derive(Clone, Copy, Debug, PartialEq, Eq, Structural)]
pub enum KeyCode {
    Char(char),
    PageUp,
    PageDown,
    Home,
    End,
    Left,
    Right,
    Up,
    Down,
    Esc,
    Other,
}

/// A key press, with whether Control was held.
#[derive(Clone, Copy, Debug, PartialEq, Eq, Structural)]
pub struct KeyPress {
    pub code: KeyCode,
    pub control: bool,
}

/// One input event.
#[derive(Clone, Copy, Debug, PartialEq, Eq, Structural)]
pub enum EditorEvent {
    Key(KeyPress),
    /// The terminal's new width and height.
    Resize(u16, u16),
    /// A mouse-wheel turn, in the direction the text moves under the caret.
    Scroll(MovementDirection),
    Other,
}

/// What a key press asks of the editor.
#[derive(Clone, Copy, Debug, PartialEq, Eq, Structural)]
pub enum Command {
    Move(MovementDirection, usize),
    Quit,
    EnterInsert,
    LeaveInsert,
    Redraw,
    Nothing,
}

/// What the terminal must do besides drawing, after an event.
#[derive(Clone, Copy, Debug, PartialEq, Eq, Structural)]
pub enum EditorAction {
    Nothing,
    /// Show the bar caret of Insert mode.
    InsertCaret,
    /// Show the block caret of Normal mode.
    NormalCaret,
}

/// What to put on the screen at a refresh.
pub enum Frame {
    /// Clear the screen: the session is ending.
    Clear,
    Title(TitleScreen),
    /// One entry per screen row.
    Content(Vec<String>),
}

/// The movement that a navigation key stands for, if it is one.
pub open spec fn movement_of(code: KeyCode) -> Option<(MovementDirection, usize)> {
    match code {
        KeyCode::PageUp => Some((MovementDirection::Top, 0)),
        KeyCode::PageDown => Some((MovementDirection::Bottom, 0)),
        KeyCode::Home => Some((MovementDirection::FullLeft, 0)),
        KeyCode::End => Some((MovementDirection::FullRight, 0)),
        KeyCode::Left => Some((MovementDirection::Left, 1)),
        KeyCode::Right => Some((MovementDirection::Right, 1)),
        KeyCode::Up => Some((MovementDirection::Up, 1)),
        KeyCode::Down => Some((MovementDirection::Down, 1)),
        _ => None,
    }
}

/// The Normal-mode meaning of the character `c` under `controls`.
pub open spec fn normal_command(controls: UserControls, c: char) -> Command {
    if c == controls.move_left {
        Command::Move(MovementDirection::Left, 1)
    } else if c == controls.move_up {
        Command::Move(MovementDirection::Up, 1)
    } else if c == controls.move_down {
        Command::Move(MovementDirection::Down, 1)
    } else if c == controls.move_right {
        Command::Move(MovementDirection::Right, 1)
    } else if c == controls.insert_mode {
        Command::EnterInsert
    } else {
        Command::Nothing
    }
}

/// The Insert-mode meaning of a key: typing asks for a redraw, Escape
/// returns to Normal mode.
pub open spec fn insert_command(code: KeyCode) -> Command {
    match code {
        KeyCode::Char(_) => Command::Redraw,
        KeyCode::Esc => Command::LeaveInsert,
        _ => Command::Nothing,
    }
}

/// The key map: navigation keys move in every mode, Control-q quits, and
/// the remaining keys mean what the current mode says.
pub open spec fn key_command(controls: UserControls, mode: EditorMode, key: KeyPress) -> Command {
    match movement_of(key.code) {
        Some(m) => Command::Move(m.0, m.1),
        None => {
            if key.code == KeyCode::Char('q') && key.control {
                Command::Quit
            } else {
                match mode {
                    EditorMode::Normal => match key.code {
                        KeyCode::Char(c) => normal_command(controls, c),
                        _ => Command::Nothing,
                    },
                    EditorMode::Insert => insert_command(key.code),
                }
            }
        },
    }
}

/// The key bindings, the mode, whether the session is ending, and the view.
pub struct Editor {
    pub user_controls: UserControls,
    pub current_mode: EditorMode,
    pub should_quit: bool,
    pub view: View,
}

impl Editor {
    /// The view's caret agrees with its scroll offset and the buffer, and lies
    /// inside the viewport whenever the viewport has any cells.
    pub open spec fn inv(&self) -> bool {
        &&& self.view.buffer.fits()
        &&& self.view.caret_matches_scroll()
        &&& self.view.caret_on_line()
        &&& (self.view.width > 0 && self.view.height > 0 ==> self.view.wf())
    }

    pub open spec fn has_area(&self) -> bool {
        self.view.width > 0 && self.view.height > 0
    }

    /// The editor after `c`; a move waits while the viewport has no cells.
    pub open spec fn run_command(self, c: Command) -> Editor {
        match c {
            Command::Move(d, n) => if self.has_area() {
                Editor { view: self.view.moved(d, n), ..self }
            } else {
                self
            },
            Command::Quit => Editor { should_quit: true, ..self },
            Command::EnterInsert => Editor { current_mode: EditorMode::Insert, ..self },
            Command::LeaveInsert => Editor { current_mode: EditorMode::Normal, ..self },
            Command::Redraw => Editor { view: View { needs_redraw: true, ..self.view }, ..self },
            Command::Nothing => self,
        }
    }

    /// Whether running `c` fails because the caret's line is missing.
    pub open spec fn fails_on(self, c: Command) -> bool {
        match c {
            Command::Move(d, _) => self.has_area() && self.view.lacks_line_for(d),
            _ => false,
        }
    }

    pub open spec fn action_of(c: Command) -> EditorAction {
        match c {
            Command::EnterInsert => EditorAction::InsertCaret,
            Command::LeaveInsert => EditorAction::NormalCaret,
            _ => EditorAction::Nothing,
        }
    }

    /// The editor after the terminal took the size `width` by `height`: the
    /// caret is scrolled back into view where the viewport has cells.
    pub open spec fn resized(self, width: u16, height: u16) -> Editor {
        let v = View { width, height, needs_redraw: true, ..self.view };
        if width > 0 && height > 0 {
            let s = v.revealing_offset();
            Editor {
                view: View {
                    scroll_offset: s,
                    position: crate::view::at(v.location.x - s.x, v.location.y - s.y),
                    ..v
                },
                ..self
            }
        } else {
            Editor { view: v, ..self }
        }
    }

    /// An editor in Normal mode over `view`.
    pub fn new(user_controls: UserControls, view: View) -> (r: Editor)
        ensures
            r.user_controls == user_controls,
            r.current_mode == EditorMode::Normal,
            !r.should_quit,
            r.view == view,
    {
        Editor { user_controls, current_mode: EditorMode::Normal, should_quit: false, view }
    }

    /// The movement that a navigation key stands for.
    pub fn handle_movement_keys(code: KeyCode) -> (r: Option<(MovementDirection, usize)>)
        ensures
            r == movement_of(code),
    {
        match code {
            KeyCode::PageUp => Some((MovementDirection::Top, 0)),
            KeyCode::PageDown => Some((MovementDirection::Bottom, 0)),
            KeyCode::Home => Some((MovementDirection::FullLeft, 0)),
            KeyCode::End => Some((MovementDirection::FullRight, 0)),
            KeyCode::Left => Some((MovementDirection::Left, 1)),
            KeyCode::Right => Some((MovementDirection::Right, 1)),
            KeyCode::Up => Some((MovementDirection::Up, 1)),
            KeyCode::Down => Some((MovementDirection::Down, 1)),
            _ => None,
        }
    }

    /// The Normal-mode meaning of the character `c`.
    pub fn evaluate_normal_event(&self, c: char) -> (r: Command)
        ensures
            r == normal_command(self.user_controls, c),
    {
        let controls = self.user_controls;
        if c == controls.move_left {
            Command::Move(MovementDirection::Left, 1)
        } else if c == controls.move_up {
            Command::Move(MovementDirection::Up, 1)
        } else if c == controls.move_down {
            Command::Move(MovementDirection::Down, 1)
        } else if c == controls.move_right {
            Command::Move(MovementDirection::Right, 1)
        } else if c == controls.insert_mode {
            Command::EnterInsert
        } else {
            Command::Nothing
        }
    }

    /// The Insert-mode meaning of a key.
    pub fn evaluate_insert_event(code: KeyCode) -> (r: Command)
        ensures
            r == insert_command(code),
    {
        match code {
            KeyCode::Char(_) => Command::Redraw,
            KeyCode::Esc => Command::LeaveInsert,
            _ => Command::Nothing,
        }
    }

    /// What `key` asks for in the current mode.
    pub fn command_for_key(&self, key: KeyPress) -> (r: Command)
        ensures
            r == key_command(self.user_controls, self.current_mode, key),
    {
        match Self::handle_movement_keys(key.code) {
            Some(m) => Command::Move(m.0, m.1),
            None => {
                if key.code == KeyCode::Char('q') && key.control {
                    Command::Quit
                } else {
                    match self.current_mode {
                        EditorMode::Normal => match key.code {
                            KeyCode::Char(c) => self.evaluate_normal_event(c),
                            _ => Command::Nothing,
                        },
                        EditorMode::Insert => Self::evaluate_insert_event(key.code),
                    }
                }
            },
        }
    }

    pub fn change_to_insert_mode(&mut self) -> (r: EditorAction)
        ensures
            *final(self) == (Editor { current_mode: EditorMode::Insert, ..*old(self) }),
            r == EditorAction::InsertCaret,
    {
        self.current_mode = EditorMode::Insert;
        EditorAction::InsertCaret
    }

    pub fn change_to_normal_mode(&mut self) -> (r: EditorAction)
        ensures
            *final(self) == (Editor { current_mode: EditorMode::Normal, ..*old(self) }),
            r == EditorAction::NormalCaret,
    {
        self.current_mode = EditorMode::Normal;
        EditorAction::NormalCaret
    }

    /// Carries out `c`. A move fails, changing nothing, where it needs the
    /// caret's line and that line is missing.
    pub fn execute(&mut self, c: Command) -> (r: Result<EditorAction, MoveError>)
        requires
            old(self).inv(),
        ensures
            final(self).inv(),
            r is Err <==> old(self).fails_on(c),
            r is Err ==> *final(self) == *old(self),
            r is Ok ==> *final(self) == old(self).run_command(c) && r == Ok::<EditorAction, MoveError>(
                Self::action_of(c),
            ),
    {
        match c {
            Command::Move(d, n) => {
                if self.view.width > 0 && self.view.height > 0 {
                    match self.view.move_caret(d, n) {
                        Ok(()) => Ok(EditorAction::Nothing),
                        Err(e) => Err(e),
                    }
                } else {
                    Ok(EditorAction::Nothing)
                }
            },
            Command::Quit => {
                self.should_quit = true;
                Ok(EditorAction::Nothing)
            },
            Command::EnterInsert => Ok(self.change_to_insert_mode()),
            Command::LeaveInsert => Ok(self.change_to_normal_mode()),
            Command::Redraw => {
                self.view.needs_redraw = true;
                Ok(EditorAction::Nothing)
            },
            Command::Nothing => Ok(EditorAction::Nothing),
        }
    }

    /// Handles one input event: a key runs its command, a wheel turn moves the
    /// caret one step, and a resize takes the new size and scrolls the caret
    /// back into view.
    pub fn handle_event(&mut self, event: EditorEvent) -> (r: Result<EditorAction, MoveError>)
        requires
            old(self).inv(),
        ensures
            final(self).inv(),
            match event {
                EditorEvent::Key(k) => {
                    let c = key_command(old(self).user_controls, old(self).current_mode, k);
                    &&& (r is Err <==> old(self).fails_on(c))
                    &&& (r is Err ==> *final(self) == *old(self))
                    &&& (r is Ok ==> *final(self) == old(self).run_command(c) && r == Ok::<
                        EditorAction,
                        MoveError,
                    >(Self::action_of(c)))
                },
                EditorEvent::Scroll(d) => {
                    let c = Command::Move(d, 1);
                    &&& (r is Err <==> old(self).fails_on(c))
                    &&& (r is Err ==> *final(self) == *old(self))
                    &&& (r is Ok ==> *final(self) == old(self).run_command(c) && r == Ok::<
                        EditorAction,
                        MoveError,
                    >(EditorAction::Nothing))
                },
                EditorEvent::Resize(w, h) => *final(self) == old(self).resized(w, h) && r == Ok::<
                    EditorAction,
                    MoveError,
                >(EditorAction::Nothing),
                EditorEvent::Other => *final(self) == *old(self) && r == Ok::<EditorAction, MoveError>(
                    EditorAction::Nothing,
                ),
            },
    {
        match event {
            EditorEvent::Key(k) => {
                let c = self.command_for_key(k);
                self.execute(c)
            },
            EditorEvent::Scroll(d) => self.execute(Command::Move(d, 1)),
            EditorEvent::Resize(w, h) => {
                self.view.update_terminal_size(w, h);
                if w > 0 && h > 0 {
                    self.view.keep_caret_visible();
                }
                Ok(EditorAction::Nothing)
            },
            EditorEvent::Other => Ok(EditorAction::Nothing),
        }
    }

    /// The frame owed at this refresh, if any: a cleared screen when the
    /// session ends, else, where a redraw is owed, the title screen for an
    /// empty buffer and the content view otherwise.
    pub fn refresh_screen(&mut self) -> (r: Option<Frame>)
        requires
            old(self).inv(),
        ensures
            final(self).inv(),
            old(self).should_quit ==> (r matches Some(Frame::Clear) && *final(self) == *old(self)),
            !old(self).should_quit && !old(self).view.needs_redraw ==> (r is None && *final(self)
                == *old(self)),
            !old(self).should_quit && old(self).view.needs_redraw ==> *final(self) == (Editor {
                view: View { needs_redraw: false, ..old(self).view },
                ..*old(self)
            }),
            !old(self).should_quit && old(self).view.needs_redraw && old(self).view.buffer.lines().len()
                == 0 ==> (r matches Some(Frame::Title(t)) && t.rows@.len() == old(self).view.height
                && (forall|i: int| 0 <= i < t.rows@.len() ==> #[trigger] t.rows@[i]@ == seq!['~'])
                && t.name_at == old(self).view.title_at() && t.version_at == crate::view::at(
                old(self).view.title_at().x + 2,
                old(self).view.title_at().y + 1,
            )),
            !old(self).should_quit && old(self).view.needs_redraw && old(self).view.buffer.lines().len()
                > 0 ==> (r matches Some(Frame::Content(rows)) && rows@.len() == old(self).view.height
                && forall|i: int| 0 <= i < rows@.len() ==> #[trigger] rows@[i]@ == old(self).view.visible_row(i)),
    {
        if self.should_quit {
            Some(Frame::Clear)
        } else if self.view.needs_redraw {
            if self.view.buffer.is_empty() {
                Some(Frame::Title(self.view.render_title_screen()))
            } else {
                Some(Frame::Content(self.view.render()))
            }
        } else {
            None
        }
    }
}

} // verus!
