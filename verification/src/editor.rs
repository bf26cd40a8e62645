//! The editor core: cursor and scroll state, and the dispatch of input
//! events to navigation, editing, saving and quitting. The surrounding loop
//! only reads events, paints rows and writes files; every decision is here.

use vstd::prelude::*;
use vstd::view::View as _;
use crate::buffer::{doc_delete, doc_insert, lines_view};
use crate::view::{Size, View, frame};

verus! {

/// A key press, already freed of the terminal protocol: navigation keys,
/// backspace, a character, or anything else.
#[derive(Clone, Copy, PartialEq, Eq, Structural, Debug)]
pub enum Key {
    Up,
    Down,
    Left,
    Right,
    PageUp,
    PageDown,
    Home,
    End,
    Backspace,
    Char(char),
    Other,
}

/// One input event: a key press with its control modifier, a new terminal
/// size, or anything else.
#[derive(Clone, Copy, PartialEq, Eq, Structural, Debug)]
pub enum EditorEvent {
    KeyPress { key: Key, ctrl: bool },
    WindowResize { width: usize, height: usize },
    Other,
}

/// The cursor, in viewport-local coordinates: `y` counts grid rows from the
/// top of the visible grid, not document lines.
#[derive(Clone, Copy, PartialEq, Eq, Structural, Debug)]
pub struct Location {
    pub x: usize,
    pub y: usize,
}

/// A cell of the terminal grid, as the terminal addresses it.
#[derive(Clone, Copy, PartialEq, Eq, Structural, Debug)]
pub struct Position {
    pub col: usize,
    pub row: usize,
}

/// The cursor column after a navigation key: left and right steps clamp to
/// the grid, `Home` and `End` jump to its edges.
pub open spec fn nav_x(key: Key, x: int, width: int) -> int {
    match key {
        Key::Left => if x > 0 {
            x - 1
        } else {
            0
        },
        Key::Right => {
            let stepped = if x < usize::MAX as int {
                x + 1
            } else {
                x
            };
            let limit = if width > 0 {
                width - 1
            } else {
                0
            };
            if stepped < limit {
                stepped
            } else {
                limit
            }
        },
        Key::Home => 0,
        Key::End => if width > 0 {
            width - 1
        } else {
            0
        },
        _ => x,
    }
}

/// The cursor row after a navigation key: up and down steps stay on the
/// grid, `PageUp` and `PageDown` jump to its edges.
pub open spec fn nav_y(key: Key, y: int, height: int) -> int {
    match key {
        Key::Down => if y + 1 < height {
            y + 1
        } else {
            y
        },
        Key::Up => if y > 0 {
            y - 1
        } else {
            y
        },
        Key::PageUp => 0,
        Key::PageDown => if height > 0 {
            height - 1
        } else {
            0
        },
        _ => y,
    }
}

/// The scroll offset after a navigation key: it grows by one on `Down` at
/// the bottom grid row and shrinks by one on `Up` at the top grid row while
/// anything is scrolled away; no other key touches it.
pub open spec fn nav_offset(key: Key, y: int, height: int, offset_y: int) -> int {
    match key {
        Key::Down => if y + 1 < height {
            offset_y
        } else if offset_y < usize::MAX as int {
            offset_y + 1
        } else {
            offset_y
        },
        Key::Up => if y == 0 && offset_y > 0 {
            offset_y - 1
        } else {
            offset_y
        },
        _ => offset_y,
    }
}

/// True for the quit chord: control together with `q`.
pub open spec fn is_quit_event(event: EditorEvent) -> bool {
    event matches EditorEvent::KeyPress { key: Key::Char(c), ctrl: true } && c == 'q'
}

/// True for the save chord: control together with `s`.
pub open spec fn is_save_event(event: EditorEvent) -> bool {
    event matches EditorEvent::KeyPress { key: Key::Char(c), ctrl: true } && c == 's'
}

/// True for the keys that move the cursor or scroll the viewport.
pub open spec fn is_nav_key(key: Key) -> bool {
    match key {
        Key::Up | Key::Down | Key::Left | Key::Right | Key::PageUp | Key::PageDown | Key::Home
            | Key::End => true,
        _ => false,
    }
}

/// What the quit chord does: it raises the quit flag and touches nothing
/// else.
pub open spec fn quit_step(pre: Editor, post: Editor) -> bool {
    &&& post.should_quit == true
    &&& post.location == pre.location
    &&& post.view == pre.view
    &&& post.offset_y == pre.offset_y
}

/// What inserting `c` does: the character enters the document at the
/// cursor's document-absolute row, the cursor moves one column right
/// (capped at the largest column), and a repaint becomes owed.
pub open spec fn insert_step(pre: Editor, post: Editor, c: char) -> bool {
    &&& post.view.buffer@ == doc_insert(
        pre.view.buffer@,
        pre.location.y as int + pre.offset_y as int,
        pre.location.x as int,
        c,
    )
    &&& post.view.needs_redraw == true
    &&& post.view.size == pre.view.size
    &&& post.location.y == pre.location.y
    &&& post.location.x as int == (if pre.location.x < usize::MAX {
        pre.location.x + 1
    } else {
        pre.location.x as int
    })
    &&& post.offset_y == pre.offset_y
    &&& post.should_quit == pre.should_quit
}

/// What backspace does: nothing at all at column zero; otherwise the cursor
/// steps one column left and the character under the new column leaves the
/// document.
pub open spec fn backspace_step(pre: Editor, post: Editor) -> bool {
    if pre.location.x == 0 {
        post == pre
    } else {
        &&& post.view.buffer@ == doc_delete(
            pre.view.buffer@,
            pre.location.y as int + pre.offset_y as int,
            pre.location.x - 1,
        )
        &&& post.view.needs_redraw == true
        &&& post.view.size == pre.view.size
        &&& post.location == (Location { x: (pre.location.x - 1) as usize, y: pre.location.y })
        &&& post.offset_y == pre.offset_y
        &&& post.should_quit == pre.should_quit
    }
}

/// What a navigation key does: cursor and scroll offset move as the `nav_*`
/// functions say; the renderer and the quit flag are untouched.
pub open spec fn nav_step(pre: Editor, post: Editor, key: Key) -> bool {
    &&& post.should_quit == pre.should_quit
    &&& post.view == pre.view
    &&& post.location.x as int == nav_x(key, pre.location.x as int, pre.view.size.width as int)
    &&& post.location.y as int == nav_y(key, pre.location.y as int, pre.view.size.height as int)
    &&& post.offset_y as int == nav_offset(
        key,
        pre.location.y as int,
        pre.view.size.height as int,
        pre.offset_y as int,
    )
}

/// What a resize event does: the renderer takes the new grid size and owes
/// a repaint; cursor, scroll offset and quit flag stay put.
pub open spec fn resize_step(pre: Editor, post: Editor, width: usize, height: usize) -> bool {
    &&& post.view.size == (Size { width, height })
    &&& post.view.needs_redraw == true
    &&& post.view.buffer == pre.view.buffer
    &&& post.location == pre.location
    &&& post.offset_y == pre.offset_y
    &&& post.should_quit == pre.should_quit
}

/// The editor: quit flag, viewport-local cursor, renderer, and the one
/// authoritative scroll offset, passed explicitly to whoever indexes into
/// the document.
pub struct Editor {
    pub should_quit: bool,
    pub location: Location,
    pub view: View,
    pub offset_y: usize,
}

impl Editor {
    /// A fresh editor: empty document, cursor at the origin, nothing
    /// scrolled away, not quitting.
    pub fn new() -> (e: Editor)
        ensures
            e.should_quit == false,
            e.location == (Location { x: 0, y: 0 }),
            e.view.buffer@ == Seq::<Seq<char>>::empty(),
            e.view.needs_redraw == true,
            e.view.size == (Size { width: 0, height: 0 }),
            e.offset_y == 0,
    {
        Editor {
            should_quit: false,
            location: Location { x: 0, y: 0 },
            view: Default::default(),
            offset_y: 0,
        }
    }

    /// Applies one navigation key to the cursor and the scroll offset,
    /// against the current grid size; the document and the quit flag are
    /// untouched.
    pub fn move_point(&mut self, key: Key)
        ensures
            final(self).should_quit == old(self).should_quit,
            final(self).view == old(self).view,
            final(self).location.x as int == nav_x(
                key,
                old(self).location.x as int,
                old(self).view.size.width as int,
            ),
            final(self).location.y as int == nav_y(
                key,
                old(self).location.y as int,
                old(self).view.size.height as int,
            ),
            final(self).offset_y as int == nav_offset(
                key,
                old(self).location.y as int,
                old(self).view.size.height as int,
                old(self).offset_y as int,
            ),
    {
        let width = self.view.size.width;
        let height = self.view.size.height;
        let mut x = self.location.x;
        let mut y = self.location.y;
        match key {
            Key::Down => {
                if height > 0 && y < height - 1 {
                    y = y + 1;
                } else if self.offset_y < usize::MAX {
                    self.offset_y = self.offset_y + 1;
                }
            },
            Key::Up => {
                if y > 0 {
                    y = y - 1;
                } else if self.offset_y > 0 {
                    self.offset_y = self.offset_y - 1;
                }
            },
            Key::Left => {
                if x > 0 {
                    x = x - 1;
                }
            },
            Key::Right => {
                let limit = if width > 0 {
                    width - 1
                } else {
                    0
                };
                let stepped = if x < usize::MAX {
                    x + 1
                } else {
                    x
                };
                x = if stepped < limit {
                    stepped
                } else {
                    limit
                };
            },
            Key::PageUp => {
                y = 0;
            },
            Key::PageDown => {
                y = if height > 0 {
                    height - 1
                } else {
                    0
                };
            },
            Key::Home => {
                x = 0;
            },
            Key::End => {
                x = if width > 0 {
                    width - 1
                } else {
                    0
                };
            },
            _ => {},
        }
        self.location = Location { x, y };
    }

    /// Dispatches one event. The result says whether the caller owes a save
    /// of the document; everything else the event asks for happens here:
    /// quitting, inserting, deleting, navigating, resizing.
    pub fn evaluate_event(&mut self, event: EditorEvent) -> (save: bool)
        ensures
            save == is_save_event(event),
            is_quit_event(event) ==> quit_step(*old(self), *final(self)),
            is_save_event(event) ==> *final(self) == *old(self),
            event matches EditorEvent::KeyPress { key: Key::Char(c), ctrl } ==> (!(ctrl && (c
                == 'q' || c == 's')) ==> insert_step(*old(self), *final(self), c)),
            event matches EditorEvent::KeyPress { key: Key::Backspace, .. } ==> backspace_step(
                *old(self),
                *final(self),
            ),
            event matches EditorEvent::KeyPress { key, .. } ==> (is_nav_key(key) ==> nav_step(
                *old(self),
                *final(self),
                key,
            )),
            event matches EditorEvent::WindowResize { width, height } ==> resize_step(
                *old(self),
                *final(self),
                width,
                height,
            ),
            event matches EditorEvent::KeyPress { key: Key::Other, .. } ==> *final(self) == *old(
                self,
            ),
            event == EditorEvent::Other ==> *final(self) == *old(self),
    {
        match event {
            EditorEvent::KeyPress { key, ctrl } => match key {
                Key::Char(c) => {
                    if ctrl && c == 'q' {
                        self.should_quit = true;
                        false
                    } else if ctrl && c == 's' {
                        true
                    } else {
                        let x = self.location.x;
                        let y = self.location.y;
                        self.view.insert_char(y, x, c, self.offset_y);
                        self.location.x = if x < usize::MAX {
                            x + 1
                        } else {
                            x
                        };
                        false
                    }
                },
                Key::Backspace => {
                    if self.location.x > 0 {
                        let new_x = self.location.x - 1;
                        self.location.x = new_x;
                        self.view.delete_char(self.location.y, new_x, self.offset_y);
                    }
                    false
                },
                Key::Up | Key::Down | Key::Left | Key::Right | Key::PageUp | Key::PageDown
                    | Key::Home | Key::End => {
                    self.move_point(key);
                    false
                },
                Key::Other => false,
            },
            EditorEvent::WindowResize { width, height } => {
                self.view.resize(Size { width, height });
                false
            },
            EditorEvent::Other => false,
        }
    }

    /// One frame: the text of every grid row for the current scroll offset,
    /// and where the terminal cursor belongs afterwards.
    pub fn refresh_screen(&mut self) -> (out: (Vec<Vec<char>>, Position))
        ensures
            lines_view(out.0@) == frame(
                old(self).view.buffer@,
                old(self).view.size,
                old(self).offset_y as int,
            ),
            out.1 == (Position { col: old(self).location.x, row: old(self).location.y }),
            final(self).view.buffer == old(self).view.buffer,
            final(self).view.size == old(self).view.size,
            final(self).view.needs_redraw == (old(self).view.size.width == 0 || old(
                self,
            ).view.size.height == 0),
            final(self).location == old(self).location,
            final(self).offset_y == old(self).offset_y,
            final(self).should_quit == old(self).should_quit,
    {
        let rows = self.view.render(self.offset_y);
        let pos = Position { col: self.location.x, row: self.location.y };
        (rows, pos)
    }
}

/// Clamping: on a grid of at least one cell each way, every navigation key
/// leaves the cursor on the grid, wherever on the grid it stood.
pub proof fn lemma_navigation_clamped(key: Key, x: int, y: int, width: int, height: int)
    requires
        1 <= width,
        1 <= height,
        0 <= x < width,
        0 <= y < height,
    ensures
        0 <= nav_x(key, x, width) < width,
        0 <= nav_y(key, y, height) < height,
{
}

/// Scroll monotonicity: the scroll offset moves by exactly one, and only on
/// `Down` at the bottom grid row or on `Up` at the top grid row with
/// something scrolled away; every other key leaves it alone, and it never
/// goes below zero.
pub proof fn lemma_scroll_step(key: Key, y: int, height: int, offset_y: int)
    requires
        0 <= offset_y < usize::MAX as int,
    ensures
        nav_offset(key, y, height, offset_y) >= 0,
        key == Key::Down && y + 1 >= height ==> nav_offset(key, y, height, offset_y) == offset_y
            + 1,
        key == Key::Down && y + 1 < height ==> nav_offset(key, y, height, offset_y) == offset_y,
        key == Key::Up && y == 0 && offset_y > 0 ==> nav_offset(key, y, height, offset_y)
            == offset_y - 1,
        key == Key::Up && (y != 0 || offset_y == 0) ==> nav_offset(key, y, height, offset_y)
            == offset_y,
        key != Key::Down && key != Key::Up ==> nav_offset(key, y, height, offset_y) == offset_y,
{
}

} // verus!
