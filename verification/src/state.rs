//! The interaction state machine: mode, active menu tab, the two list
//! cursors and the edit buffer, and the transition taken for each event.

use vstd::prelude::*;

use crate::editor::{EditBuffer, EditView};
use crate::events::{Event, Key};

verus! {

/// How key input is interpreted: menu navigation or text entry.
#[derive(Clone, Copy, PartialEq, Eq, Structural, Debug)]
pub enum Mode {
    Normal,
    Insert,
}

/// The active menu tab; it decides which list the cursors address.
#[derive(Clone, Copy, PartialEq, Eq, Structural, Debug)]
pub enum MenuItem {
    Home,
    ChatRooms,
    FriendsList,
}

impl MenuItem {
    /// Position of the tab in the menu bar, left to right.
    pub open spec fn index_spec(self) -> int {
        match self {
            MenuItem::Home => 0,
            MenuItem::ChatRooms => 1,
            MenuItem::FriendsList => 2,
        }
    }

    pub fn index(self) -> (i: usize)
        ensures
            i == self.index_spec(),
    {
        match self {
            MenuItem::Home => 0,
            MenuItem::ChatRooms => 1,
            MenuItem::FriendsList => 2,
        }
    }
}

/// The mathematical value of an executable cursor.
pub open spec fn opt_index(c: Option<usize>) -> Option<int> {
    match c {
        Some(i) => Some(i as int),
        None => None,
    }
}

/// A list cursor is valid when it addresses an element of its list, or
/// is unset exactly when the list is empty.
pub open spec fn cursor_wf(c: Option<int>, len: int) -> bool {
    match c {
        Some(i) => len > 0 && 0 <= i < len,
        None => len == 0,
    }
}

/// One step up, clamped at the first element.
pub open spec fn cursor_up(c: Option<int>) -> Option<int> {
    match c {
        Some(i) => if i > 0 { Some(i - 1) } else { Some(i) },
        None => None,
    }
}

/// One step down, clamped at the last element of a list of `len`.
pub open spec fn cursor_down(c: Option<int>, len: int) -> Option<int> {
    match c {
        Some(i) => if i + 1 < len { Some(i + 1) } else { Some(i) },
        None => None,
    }
}

/// Re-aim a cursor at a list whose length may have changed: unset it
/// for an empty list, point a fresh or out-of-range cursor at a valid
/// element, keep a valid one where it is.
pub open spec fn cursor_clamped(c: Option<int>, len: int) -> Option<int> {
    if len == 0 {
        None
    } else {
        match c {
            Some(i) => if i < len { Some(i) } else { Some(len - 1) },
            None => Some(0),
        }
    }
}

/// Mathematical model of the whole [`Core`] state.
#[verifier::ext_equal]
pub struct CoreView {
    pub mode: Mode,
    pub menu: MenuItem,
    pub room_cursor: Option<int>,
    pub friend_cursor: Option<int>,
    pub buffer: EditView,
}

impl CoreView {
    /// The invariant the core maintains against the lengths of the two
    /// lists it currently indexes.
    pub open spec fn wf(self, room_len: int, friend_len: int) -> bool {
        &&& cursor_wf(self.room_cursor, room_len)
        &&& cursor_wf(self.friend_cursor, friend_len)
        &&& self.buffer.wf()
    }

    /// The state at startup: normal mode, home tab, each cursor on the
    /// first element of its list when there is one, empty buffer.
    pub open spec fn init(room_len: int, friend_len: int) -> CoreView {
        CoreView {
            mode: Mode::Normal,
            menu: MenuItem::Home,
            room_cursor: if room_len > 0 { Some(0) } else { None },
            friend_cursor: if friend_len > 0 { Some(0) } else { None },
            buffer: EditView::empty(),
        }
    }
}

/// What a step asks its surroundings to do, besides re-rendering.
pub enum Effect {
    /// Nothing beyond the state change.
    DoNothing,
    /// Tear the terminal down and exit.
    Quit,
    /// Deliver the composed message to the room the cursor selects.
    Send(SendRequest),
}

/// An outgoing message: the index of the selected room and the text
/// composed in the edit buffer, in order.
pub struct SendRequest {
    pub room_index: usize,
    pub text: Vec<char>,
}

/// Mathematical model of an [`Effect`].
#[verifier::ext_equal]
pub enum EffectView {
    DoNothing,
    Quit,
    Send { room_index: int, text: Seq<char> },
}

impl View for Effect {
    type V = EffectView;

    open spec fn view(&self) -> EffectView {
        match self {
            Effect::DoNothing => EffectView::DoNothing,
            Effect::Quit => EffectView::Quit,
            Effect::Send(req) => EffectView::Send {
                room_index: req.room_index as int,
                text: req.text@,
            },
        }
    }
}

/// The state a normal-mode key press leads to.
///
/// `h`, `c` and `f` pick the menu tab; `i` enters insert mode, but only
/// while the chat-rooms tab is active; the arrow keys move *both* list
/// cursors, clamped to their lists, since both lists sit behind tabs of
/// one screen. `q` and every other key leave the state unchanged.
pub open spec fn normal_step(s: CoreView, k: Key, room_len: int, friend_len: int) -> CoreView {
    match k {
        Key::Char(c) => {
            if c == 'h' {
                CoreView { menu: MenuItem::Home, ..s }
            } else if c == 'c' {
                CoreView { menu: MenuItem::ChatRooms, ..s }
            } else if c == 'f' {
                CoreView { menu: MenuItem::FriendsList, ..s }
            } else if c == 'i' {
                if s.menu is ChatRooms {
                    CoreView { mode: Mode::Insert, ..s }
                } else {
                    s
                }
            } else {
                s
            }
        },
        Key::Up => CoreView {
            room_cursor: cursor_up(s.room_cursor),
            friend_cursor: cursor_up(s.friend_cursor),
            ..s
        },
        Key::Down => CoreView {
            room_cursor: cursor_down(s.room_cursor, room_len),
            friend_cursor: cursor_down(s.friend_cursor, friend_len),
            ..s
        },
        _ => s,
    }
}

/// The state an insert-mode key press leads to.
///
/// Esc cancels: the buffer is discarded and the mode returns to normal.
/// Enter submits: the buffer is handed off (see [`step_effect`]) and
/// likewise cleared, back in normal mode. Printable characters and the
/// line-edit keys act on the buffer; everything else is ignored.
pub open spec fn insert_step(s: CoreView, k: Key) -> CoreView {
    match k {
        Key::Esc => CoreView { mode: Mode::Normal, buffer: EditView::empty(), ..s },
        Key::Enter => CoreView { mode: Mode::Normal, buffer: EditView::empty(), ..s },
        Key::Char(c) => CoreView { buffer: s.buffer.insert_char(c), ..s },
        Key::Backspace => CoreView { buffer: s.buffer.backspace(), ..s },
        Key::Left => CoreView { buffer: s.buffer.move_left(), ..s },
        Key::Right => CoreView { buffer: s.buffer.move_right(), ..s },
        _ => s,
    }
}

/// The transition relation of the core: the state after consuming one
/// event. A tick never changes the state; a key press is routed by the
/// current mode.
pub open spec fn step_state(s: CoreView, ev: Event, room_len: int, friend_len: int) -> CoreView {
    match ev {
        Event::Tick => s,
        Event::Input(k) => match s.mode {
            Mode::Normal => normal_step(s, k, room_len, friend_len),
            Mode::Insert => insert_step(s, k),
        },
    }
}

/// The side effect of consuming one event: `q` in normal mode asks to
/// quit; Enter in insert mode asks to send the buffered text to the
/// selected room, when a room is selected; everything else asks for
/// nothing.
pub open spec fn step_effect(s: CoreView, ev: Event) -> EffectView {
    match ev {
        Event::Tick => EffectView::DoNothing,
        Event::Input(k) => match s.mode {
            Mode::Normal => {
                if k == Key::Char('q') {
                    EffectView::Quit
                } else {
                    EffectView::DoNothing
                }
            },
            Mode::Insert => {
                if k == Key::Enter {
                    match s.room_cursor {
                        Some(i) => EffectView::Send { room_index: i, text: s.buffer.text },
                        None => EffectView::DoNothing,
                    }
                } else {
                    EffectView::DoNothing
                }
            },
        },
    }
}

/// The interaction core: the one owner of all UI state. Events go in
/// through [`Core::step`]; the resulting [`Effect`] is the only way the
/// core asks its surroundings to act.
pub struct Core {
    mode: Mode,
    menu: MenuItem,
    room_cursor: Option<usize>,
    friend_cursor: Option<usize>,
    buffer: EditBuffer,
}

impl View for Core {
    type V = CoreView;

    closed spec fn view(&self) -> CoreView {
        CoreView {
            mode: self.mode,
            menu: self.menu,
            room_cursor: opt_index(self.room_cursor),
            friend_cursor: opt_index(self.friend_cursor),
            buffer: self.buffer@,
        }
    }
}

impl Core {
    pub fn new(room_len: usize, friend_len: usize) -> (c: Core)
        ensures
            c@ == CoreView::init(room_len as int, friend_len as int),
            c@.wf(room_len as int, friend_len as int),
    {
        let c = Core {
            mode: Mode::Normal,
            menu: MenuItem::Home,
            room_cursor: if room_len > 0 { Some(0) } else { None },
            friend_cursor: if friend_len > 0 { Some(0) } else { None },
            buffer: EditBuffer::new(),
        };
        proof {
            assert(c@ =~= CoreView::init(room_len as int, friend_len as int));
        }
        c
    }

    pub fn mode(&self) -> (m: Mode)
        ensures
            m == self@.mode,
    {
        self.mode
    }

    pub fn menu(&self) -> (m: MenuItem)
        ensures
            m == self@.menu,
    {
        self.menu
    }

    pub fn room_cursor(&self) -> (c: Option<usize>)
        ensures
            opt_index(c) == self@.room_cursor,
    {
        self.room_cursor
    }

    pub fn friend_cursor(&self) -> (c: Option<usize>)
        ensures
            opt_index(c) == self@.friend_cursor,
    {
        self.friend_cursor
    }

    pub fn buffer(&self) -> (b: &EditBuffer)
        ensures
            b@ == self@.buffer,
    {
        &self.buffer
    }

    /// Re-aim both cursors after the lists were re-fetched, as the
    /// invariant demands on every resize of an underlying collection.
    pub fn sync_cursors(&mut self, room_len: usize, friend_len: usize)
        ensures
            final(self)@ == (CoreView {
                room_cursor: cursor_clamped(old(self)@.room_cursor, room_len as int),
                friend_cursor: cursor_clamped(old(self)@.friend_cursor, friend_len as int),
                ..old(self)@
            }),
            cursor_wf(final(self)@.room_cursor, room_len as int),
            cursor_wf(final(self)@.friend_cursor, friend_len as int),
    {
        self.room_cursor = Self::clamp(self.room_cursor, room_len);
        self.friend_cursor = Self::clamp(self.friend_cursor, friend_len);
        proof {
            assert(self@ =~= (CoreView {
                room_cursor: cursor_clamped(old(self)@.room_cursor, room_len as int),
                friend_cursor: cursor_clamped(old(self)@.friend_cursor, friend_len as int),
                ..old(self)@
            }));
        }
    }

    fn clamp(c: Option<usize>, len: usize) -> (r: Option<usize>)
        ensures
            opt_index(r) == cursor_clamped(opt_index(c), len as int),
    {
        if len == 0 {
            None
        } else {
            match c {
                Some(i) => if i < len { Some(i) } else { Some(len - 1) },
                None => Some(0),
            }
        }
    }

    /// Consume one event: move to the state [`step_state`] prescribes
    /// and return the effect [`step_effect`] prescribes. The invariant
    /// is preserved against the same list lengths.
    pub fn step(&mut self, ev: Event, room_len: usize, friend_len: usize) -> (eff: Effect)
        requires
            old(self)@.wf(room_len as int, friend_len as int),
            old(self)@.buffer.text.len() < usize::MAX,
        ensures
            final(self)@ == step_state(old(self)@, ev, room_len as int, friend_len as int),
            eff@ == step_effect(old(self)@, ev),
            final(self)@.wf(room_len as int, friend_len as int),
    {
        match ev {
            Event::Tick => Effect::DoNothing,
            Event::Input(k) => match self.mode {
                Mode::Normal => self.normal_input(k, room_len, friend_len),
                Mode::Insert => self.insert_input(k),
            },
        }
    }

    fn normal_input(&mut self, k: Key, room_len: usize, friend_len: usize) -> (eff: Effect)
        requires
            old(self)@.wf(room_len as int, friend_len as int),
            old(self)@.mode is Normal,
        ensures
            final(self)@ == normal_step(old(self)@, k, room_len as int, friend_len as int),
            eff@ == step_effect(old(self)@, Event::Input(k)),
            final(self)@.wf(room_len as int, friend_len as int),
    {
        match k {
            Key::Char(c) => {
                if c == 'q' {
                    return Effect::Quit;
                } else if c == 'h' {
                    self.menu = MenuItem::Home;
                } else if c == 'c' {
                    self.menu = MenuItem::ChatRooms;
                } else if c == 'f' {
                    self.menu = MenuItem::FriendsList;
                } else if c == 'i' {
                    if matches!(self.menu, MenuItem::ChatRooms) {
                        self.mode = Mode::Insert;
                    }
                }
            },
            Key::Up => {
                self.room_cursor = Self::up(self.room_cursor);
                self.friend_cursor = Self::up(self.friend_cursor);
            },
            Key::Down => {
                self.room_cursor = Self::down(self.room_cursor, room_len);
                self.friend_cursor = Self::down(self.friend_cursor, friend_len);
            },
            _ => {},
        }
        Effect::DoNothing
    }

    fn up(c: Option<usize>) -> (r: Option<usize>)
        ensures
            opt_index(r) == cursor_up(opt_index(c)),
    {
        match c {
            Some(i) => if i > 0 { Some(i - 1) } else { Some(i) },
            None => None,
        }
    }

    fn down(c: Option<usize>, len: usize) -> (r: Option<usize>)
        requires
            cursor_wf(opt_index(c), len as int),
        ensures
            opt_index(r) == cursor_down(opt_index(c), len as int),
    {
        match c {
            Some(i) => if i + 1 < len { Some(i + 1) } else { Some(i) },
            None => None,
        }
    }

    fn insert_input(&mut self, k: Key) -> (eff: Effect)
        requires
            old(self)@.buffer.wf(),
            old(self)@.mode is Insert,
            old(self)@.buffer.text.len() < usize::MAX,
        ensures
            final(self)@ == insert_step(old(self)@, k),
            eff@ == step_effect(old(self)@, Event::Input(k)),
            final(self)@.buffer.wf(),
    {
        match k {
            Key::Esc => {
                self.buffer.clear();
                self.mode = Mode::Normal;
                Effect::DoNothing
            },
            Key::Enter => {
                let text = self.buffer.take_text();
                self.mode = Mode::Normal;
                match self.room_cursor {
                    Some(i) => Effect::Send(SendRequest { room_index: i, text }),
                    None => Effect::DoNothing,
                }
            },
            Key::Char(c) => {
                self.buffer.insert_char(c);
                Effect::DoNothing
            },
            Key::Backspace => {
                self.buffer.backspace();
                Effect::DoNothing
            },
            Key::Left => {
                self.buffer.move_left();
                Effect::DoNothing
            },
            Key::Right => {
                self.buffer.move_right();
                Effect::DoNothing
            },
            _ => Effect::DoNothing,
        }
    }
}

} // verus!
