//! Keyboard-first line editing: the editable buffer and what each key does to
//! it. Reading keys from the terminal and drawing the line is the caller's.
use vstd::prelude::*;
use crate::text::{from_chars, to_chars};
use crate::history::{History, previous_position};
use crate::shared::RuntimeEvent;
use crate::terminal::{PresenceIndicator, presence_after};

verus! {

/// Result of one interactive input cycle.
#[derive(Clone, Debug, Eq, PartialEq)]
pub enum EditResult {
    /// The user submitted a line.
    Submitted(String),
    /// The user cancelled the current line.
    Cancelled,
    /// Input reached end-of-file.
    Eof,
}

/// Editable line buffer: the characters of the line and a cursor that stands
/// between two of them, or at either end.
#[derive(Debug)]
pub struct LineBuffer {
    text: Vec<char>,
    cursor: usize,
}

impl LineBuffer {
    #[verifier::type_invariant]
    spec fn cursor_in_line(self) -> bool {
        self.cursor <= self.text@.len()
    }

    /// The characters of the line.
    pub closed spec fn chars(self) -> Seq<char> {
        self.text@
    }

    /// The cursor position, in characters from the start of the line.
    pub closed spec fn position(self) -> nat {
        self.cursor as nat
    }

    /// Create an empty line.
    pub fn new() -> (r: Self)
        ensures
            r.chars() == Seq::<char>::empty(),
            r.position() == 0,
    {
        LineBuffer { text: Vec::new(), cursor: 0 }
    }

    /// Return the line as a string.
    pub fn text(&self) -> (s: String)
        ensures
            s@ == self.chars(),
    {
        from_chars(self.text.as_slice())
    }

    /// Return the cursor position in characters; it never passes the end of
    /// the line.
    pub fn cursor(&self) -> (c: usize)
        ensures
            c == self.position(),
            c <= self.chars().len(),
    {
        proof {
            use_type_invariant(self);
        }
        self.cursor
    }

    /// Replace the current line and place the cursor at its end.
    pub fn replace(&mut self, value: &str)
        ensures
            final(self).chars() == value@,
            final(self).position() == value@.len(),
    {
        let text = to_chars(value);
        let cursor = text.len();
        *self = LineBuffer { text, cursor };
    }

    /// Insert a character at the cursor and move past it.
    pub fn insert(&mut self, character: char)
        requires
            old(self).chars().len() < usize::MAX,
        ensures
            final(self).chars() == old(self).chars().insert(old(self).position() as int, character),
            final(self).position() == old(self).position() + 1,
    {
        proof {
            use_type_invariant(&*self);
        }
        let mut text = self.text.clone();
        proof {
            assert(text@ =~= self.text@);
        }
        text.insert(self.cursor, character);
        let cursor = self.cursor + 1;
        *self = LineBuffer { text, cursor };
    }

    /// Delete the character before the cursor, if there is one.
    pub fn backspace(&mut self)
        ensures
            old(self).position() > 0 ==> final(self).chars() == old(self).chars().remove(
                old(self).position() - 1,
            ) && final(self).position() == old(self).position() - 1,
            old(self).position() == 0 ==> *final(self) == *old(self),
    {
        proof {
            use_type_invariant(&*self);
        }
        if self.cursor > 0 {
            let cursor = self.cursor - 1;
            let mut text = self.text.clone();
            proof {
                assert(text@ =~= self.text@);
            }
            text.remove(cursor);
            *self = LineBuffer { text, cursor };
        }
    }

    /// Delete the character at the cursor, if there is one.
    pub fn delete(&mut self)
        ensures
            old(self).position() < old(self).chars().len() ==> final(self).chars() == old(
                self,
            ).chars().remove(old(self).position() as int) && final(self).position() == old(self).position(),
            old(self).position() >= old(self).chars().len() ==> *final(self) == *old(self),
    {
        proof {
            use_type_invariant(&*self);
        }
        if self.cursor < self.text.len() {
            let cursor = self.cursor;
            let mut text = self.text.clone();
            proof {
                assert(text@ =~= self.text@);
            }
            text.remove(cursor);
            *self = LineBuffer { text, cursor };
        }
    }

    /// Move one character left, staying at the start of the line.
    pub fn left(&mut self)
        ensures
            final(self).chars() == old(self).chars(),
            final(self).position() == (if old(self).position() == 0 { 0 } else { old(self).position() - 1 }),
    {
        proof {
            use_type_invariant(&*self);
        }
        if self.cursor > 0 {
            let cursor = self.cursor - 1;
            let text = self.text.clone();
            proof {
                assert(text@ =~= self.text@);
            }
            *self = LineBuffer { text, cursor };
        }
    }

    /// Move one character right, staying at the end of the line.
    pub fn right(&mut self)
        ensures
            final(self).chars() == old(self).chars(),
            final(self).position() == (if old(self).position() < old(self).chars().len() {
                old(self).position() + 1
            } else {
                old(self).chars().len()
            }),
    {
        proof {
            use_type_invariant(&*self);
        }
        if self.cursor < self.text.len() {
            let cursor = self.cursor + 1;
            let text = self.text.clone();
            proof {
                assert(text@ =~= self.text@);
            }
            *self = LineBuffer { text, cursor };
        }
    }

    /// Move to the beginning.
    pub fn home(&mut self)
        ensures
            final(self).chars() == old(self).chars(),
            final(self).position() == 0,
    {
        let text = self.text.clone();
        proof {
            assert(text@ =~= self.text@);
        }
        *self = LineBuffer { text, cursor: 0 };
    }

    /// Move to the end.
    pub fn end(&mut self)
        ensures
            final(self).chars() == old(self).chars(),
            final(self).position() == old(self).chars().len(),
    {
        let text = self.text.clone();
        proof {
            assert(text@ =~= self.text@);
        }
        let cursor = text.len();
        *self = LineBuffer { text, cursor };
    }
}

impl Clone for LineBuffer {
    fn clone(&self) -> (r: Self)
        ensures
            r.chars() == self.chars(),
            r.position() == self.position(),
    {
        proof {
            use_type_invariant(self);
        }
        let text = self.text.clone();
        proof {
            assert(text@ =~= self.text@);
        }
        LineBuffer { text, cursor: self.cursor }
    }
}

impl Default for LineBuffer {
    fn default() -> (r: Self)
        ensures
            r.chars() == Seq::<char>::empty(),
            r.position() == 0,
    {
        LineBuffer::new()
    }
}

/// Deleting the character just inserted gives the line back: `backspace`
/// undoes `insert`, text and cursor alike.
pub proof fn lemma_backspace_undoes_insert(line: Seq<char>, position: nat, c: char)
    requires
        position <= line.len(),
    ensures
        line.insert(position as int, c).remove(position as int) == line,
        (position + 1) - 1 == position,
{
    assert(line.insert(position as int, c).remove(position as int) =~= line);
}

/// Inserting a character at the start and deleting forward from the start
/// gives the line back: `delete` at `home` undoes an `insert` at `home`.
pub proof fn lemma_delete_undoes_insert_at_start(line: Seq<char>, c: char)
    ensures
        line.insert(0, c).remove(0) == line,
{
    assert(line.insert(0, c).remove(0) =~= line);
}

/// What one key of the raw terminal protocol asks of the editor.
#[derive(Clone, Copy, Debug, PartialEq, Eq, Structural)]
pub enum KeyAction {
    /// Ctrl-C: cancel the line.
    Cancel,
    /// Ctrl-D: end of input.
    EndOfInput,
    /// Backspace or DEL: delete before the cursor.
    Backspace,
    /// Enter: submit the line.
    Submit,
    /// Ctrl-L: clear the screen and move to the end.
    ClearScreen,
    /// ESC: an escape sequence follows.
    Escape,
    /// A printable character to insert.
    Insert(char),
    /// Any other byte is ignored.
    Ignore,
}

/// The action the raw editor takes for an input byte.
pub open spec fn key_action_spec(byte: u8) -> KeyAction {
    if byte == 3 {
        KeyAction::Cancel
    } else if byte == 4 {
        KeyAction::EndOfInput
    } else if byte == 8 || byte == 127 {
        KeyAction::Backspace
    } else if byte == 10 || byte == 13 {
        KeyAction::Submit
    } else if byte == 12 {
        KeyAction::ClearScreen
    } else if byte == 27 {
        KeyAction::Escape
    } else if 32 <= byte <= 126 {
        KeyAction::Insert(byte as char)
    } else {
        KeyAction::Ignore
    }
}

/// Decide what an input byte does: control keys act on the line, printable
/// ASCII (space included) is inserted, anything else is ignored.
pub fn key_action(byte: u8) -> (a: KeyAction)
    ensures
        a == key_action_spec(byte),
{
    if byte == 3 {
        KeyAction::Cancel
    } else if byte == 4 {
        KeyAction::EndOfInput
    } else if byte == 8 || byte == 127 {
        KeyAction::Backspace
    } else if byte == 10 || byte == 13 {
        KeyAction::Submit
    } else if byte == 12 {
        KeyAction::ClearScreen
    } else if byte == 27 {
        KeyAction::Escape
    } else if 32 <= byte && byte <= 126 {
        KeyAction::Insert(byte as char)
    } else {
        KeyAction::Ignore
    }
}

/// What the final byte of an `ESC [` sequence asks of the editor.
#[derive(Clone, Copy, Debug, PartialEq, Eq, Structural)]
pub enum EscapeAction {
    /// Up arrow: recall the previous history entry.
    HistoryPrevious,
    /// Down arrow: recall the next history entry.
    HistoryNext,
    /// Right arrow.
    Right,
    /// Left arrow.
    Left,
    /// Home.
    Home,
    /// End.
    End,
    /// Delete: one more byte (the `~`) follows, then delete at the cursor.
    Delete,
    /// Any other sequence is ignored.
    Ignore,
}

/// The action for the byte after `ESC [`.
pub open spec fn escape_action_spec(byte: u8) -> EscapeAction {
    if byte == 65 {
        EscapeAction::HistoryPrevious
    } else if byte == 66 {
        EscapeAction::HistoryNext
    } else if byte == 67 {
        EscapeAction::Right
    } else if byte == 68 {
        EscapeAction::Left
    } else if byte == 72 || byte == 49 {
        EscapeAction::Home
    } else if byte == 70 || byte == 52 {
        EscapeAction::End
    } else if byte == 51 {
        EscapeAction::Delete
    } else {
        EscapeAction::Ignore
    }
}

/// Decide what an `ESC [ x` sequence does: arrows move or recall history,
/// `H`/`1` and `F`/`4` go home and to the end, `3` deletes.
pub fn escape_action(byte: u8) -> (a: EscapeAction)
    ensures
        a == escape_action_spec(byte),
{
    if byte == 65 {
        EscapeAction::HistoryPrevious
    } else if byte == 66 {
        EscapeAction::HistoryNext
    } else if byte == 67 {
        EscapeAction::Right
    } else if byte == 68 {
        EscapeAction::Left
    } else if byte == 72 || byte == 49 {
        EscapeAction::Home
    } else if byte == 70 || byte == 52 {
        EscapeAction::End
    } else if byte == 51 {
        EscapeAction::Delete
    } else {
        EscapeAction::Ignore
    }
}

/// The keys after `ESC [`: `C` moves the cursor one character right,
/// stopping at the end of the line, and `D` one character left, stopping at
/// its start; so `D` then `C` brings back a cursor that was not at the start,
/// and `C` then `D` one that was not at the end. `H` and `1` go to the start
/// of the line, `F` and `4` to its end; `A` and `B` recall the previous and
/// next history entries, and `3` deletes.
pub proof fn lemma_arrow_keys(chars: Seq<char>, position: nat)
    requires
        position <= chars.len(),
    ensures
        cursor_edit(chars, position, escape_action_spec(67)) == (if position < chars.len() {
            position + 1
        } else {
            chars.len()
        }),
        cursor_edit(chars, position, escape_action_spec(68)) == (if position > 0 {
            (position - 1) as nat
        } else {
            0
        }),
        position > 0 ==> cursor_edit(chars, cursor_edit(chars, position, escape_action_spec(68)), escape_action_spec(67))
            == position,
        position < chars.len() ==> cursor_edit(
            chars,
            cursor_edit(chars, position, escape_action_spec(67)),
            escape_action_spec(68),
        ) == position,
        cursor_edit(chars, position, escape_action_spec(72)) == 0,
        cursor_edit(chars, position, escape_action_spec(49)) == 0,
        cursor_edit(chars, position, escape_action_spec(70)) == chars.len(),
        cursor_edit(chars, position, escape_action_spec(52)) == chars.len(),
        escape_action_spec(65) == EscapeAction::HistoryPrevious,
        escape_action_spec(66) == EscapeAction::HistoryNext,
        escape_action_spec(51) == EscapeAction::Delete,
{
}

/// Where the raw editor stands in an `ESC [ x` sequence.
#[derive(Clone, Copy, Debug, PartialEq, Eq, Structural)]
pub enum EscapeState {
    /// Not in a sequence.
    Idle,
    /// ESC was read.
    Escape,
    /// `ESC [` was read.
    Bracket,
    /// `ESC [ 3` was read: one more byte, then delete at the cursor.
    Terminator,
}

/// What the caller does after the editor took a byte.
#[derive(Clone, Debug, Eq, PartialEq)]
pub enum EditorStep {
    /// Redraw the prompt line, then read the next byte.
    Redraw,
    /// Read the next byte of an escape sequence.
    Read,
    /// Clear the screen, redraw the prompt line, then read the next byte.
    Clear,
    /// The line is finished: echo `^C` and end the line for a cancelled one,
    /// end the line for a submitted one, and return the result.
    Done(EditResult),
}

/// The line and cursor after a key outside an escape sequence: backspace
/// deletes before the cursor, Ctrl-L moves to the end, a printable character
/// is inserted (while the line can grow); other keys leave both.
pub open spec fn key_edit(chars: Seq<char>, position: nat, key: KeyAction) -> (Seq<char>, nat) {
    match key {
        KeyAction::Backspace => if position > 0 {
            (chars.remove(position - 1), (position - 1) as nat)
        } else {
            (chars, position)
        },
        KeyAction::ClearScreen => (chars, chars.len()),
        KeyAction::Insert(c) => if chars.len() < usize::MAX {
            (chars.insert(position as int, c), position + 1)
        } else {
            (chars, position)
        },
        _ => (chars, position),
    }
}

/// The cursor after a cursor-moving escape sequence.
pub open spec fn cursor_edit(chars: Seq<char>, position: nat, action: EscapeAction) -> nat {
    match action {
        EscapeAction::Right => if position < chars.len() {
            position + 1
        } else {
            chars.len()
        },
        EscapeAction::Left => if position == 0 {
            0
        } else {
            (position - 1) as nat
        },
        EscapeAction::Home => 0,
        EscapeAction::End => chars.len(),
        _ => position,
    }
}

/// The step after a key outside an escape sequence.
pub open spec fn key_step(key: KeyAction, chars: Seq<char>) -> EditorStep {
    match key {
        KeyAction::Cancel => EditorStep::Done(EditResult::Cancelled),
        KeyAction::EndOfInput => EditorStep::Done(EditResult::Eof),
        KeyAction::ClearScreen => EditorStep::Clear,
        KeyAction::Escape => EditorStep::Read,
        _ => EditorStep::Redraw,
    }
}

/// Raw terminal line editor: the line being edited, whether the user has
/// started typing, and where it stands in an escape sequence. The caller
/// reads the terminal byte by byte, hands each to [`LineEditor::step`] and
/// does what the step says.
#[derive(Debug)]
pub struct LineEditor {
    buffer: LineBuffer,
    editing: bool,
    escape: EscapeState,
}

impl LineEditor {
    /// The characters of the line.
    pub closed spec fn chars(self) -> Seq<char> {
        self.buffer.chars()
    }

    /// The cursor position.
    pub closed spec fn position(self) -> nat {
        self.buffer.position()
    }

    /// Whether the user has started typing this line.
    pub closed spec fn typing(self) -> bool {
        self.editing
    }

    /// Where the editor stands in an escape sequence.
    pub closed spec fn sequence(self) -> EscapeState {
        self.escape
    }

    /// An editor with an empty line.
    pub fn new() -> (r: Self)
        ensures
            r.chars() == Seq::<char>::empty(),
            r.position() == 0,
            !r.typing(),
            r.sequence() == EscapeState::Idle,
    {
        LineEditor { buffer: LineBuffer::new(), editing: false, escape: EscapeState::Idle }
    }

    /// The line being edited.
    pub fn buffer(&self) -> (r: &LineBuffer)
        ensures
            r.chars() == self.chars(),
            r.position() == self.position(),
    {
        &self.buffer
    }

    /// Take one byte of input (`None` at end of input). Outside an escape
    /// sequence: Ctrl-C cancels and Enter submits the line, both announcing
    /// that input stopped; Ctrl-D ends input; the first printable character
    /// of the line announces that input started; ESC starts a sequence.
    /// In a sequence: a byte other than `[` after ESC abandons it; after
    /// `ESC [` the arrows recall history or move the cursor, `H`/`1` and
    /// `F`/`4` go home and to the end, and `3` deletes at the cursor once
    /// one more byte has been read.
    pub fn step(&mut self, byte: Option<u8>, history: &mut History, presence: &mut PresenceIndicator) -> (r: EditorStep)
        ensures
            byte is None ==> r == EditorStep::Done(EditResult::Eof) && *final(self) == *old(self)
                && *final(history) == *old(history) && *final(presence) == *old(presence),
            old(self).sequence() == EscapeState::Idle ==> (byte matches Some(b) ==> {
                let key = key_action_spec(b);
                let edited = key_edit(old(self).chars(), old(self).position(), key);
                &&& *final(history) == *old(history)
                &&& key == KeyAction::Submit ==> (r matches EditorStep::Done(EditResult::Submitted(t)) && t@ == old(self).chars())
                &&& key != KeyAction::Submit ==> r == key_step(key, old(self).chars())
                &&& final(self).chars() == edited.0
                &&& final(self).position() == edited.1
                &&& final(self).typing() == (old(self).typing() || key is Insert)
                &&& final(self).sequence() == (if key == KeyAction::Escape { EscapeState::Escape } else { EscapeState::Idle })
                &&& final(presence).presence() == (if key == KeyAction::Cancel || key == KeyAction::Submit {
                    presence_after(old(presence).presence(), RuntimeEvent::InputStopped)
                } else if key is Insert && !old(self).typing() {
                    presence_after(old(presence).presence(), RuntimeEvent::InputStarted)
                } else {
                    old(presence).presence()
                })
            }),
            old(self).sequence() == EscapeState::Escape ==> (byte matches Some(b) ==> {
                &&& *final(history) == *old(history)
                &&& *final(presence) == *old(presence)
                &&& final(self).chars() == old(self).chars()
                &&& final(self).position() == old(self).position()
                &&& final(self).typing() == old(self).typing()
                &&& if b == 91 {
                    r == EditorStep::Read && final(self).sequence() == EscapeState::Bracket
                } else {
                    r == EditorStep::Redraw && final(self).sequence() == EscapeState::Idle
                }
            }),
            old(self).sequence() == EscapeState::Bracket ==> (byte matches Some(b) ==> {
                let action = escape_action_spec(b);
                &&& *final(presence) == *old(presence)
                &&& final(self).typing() == old(self).typing()
                &&& final(history).items() == old(history).items()
                &&& final(history).file() == old(history).file()
                &&& if action == EscapeAction::Delete {
                    r == EditorStep::Read && final(self).sequence() == EscapeState::Terminator
                } else {
                    r == EditorStep::Redraw && final(self).sequence() == EscapeState::Idle
                }
                &&& if action == EscapeAction::HistoryPrevious {
                    if old(history).items().len() == 0 {
                        *final(history) == *old(history) && final(self).chars() == old(self).chars()
                            && final(self).position() == old(self).position()
                    } else {
                        let p = previous_position(old(history).items().len(), old(history).position());
                        &&& final(history).position() == Some(p)
                        &&& final(self).chars() == old(history).items()[p as int]
                        &&& final(self).position() == final(self).chars().len()
                    }
                } else if action == EscapeAction::HistoryNext {
                    match old(history).position() {
                        None => *final(history) == *old(history) && final(self).chars() == old(self).chars()
                            && final(self).position() == old(self).position(),
                        Some(c) => if c + 1 >= old(history).items().len() {
                            &&& final(history).position() is None
                            &&& final(self).chars() == Seq::<char>::empty()
                            &&& final(self).position() == 0
                        } else {
                            &&& final(history).position() == Some((c + 1) as nat)
                            &&& final(self).chars() == old(history).items()[(c + 1) as int]
                            &&& final(self).position() == final(self).chars().len()
                        },
                    }
                } else {
                    &&& *final(history) == *old(history)
                    &&& final(self).chars() == old(self).chars()
                    &&& final(self).position() == cursor_edit(old(self).chars(), old(self).position(), action)
                }
            }),
            byte is Some && old(self).sequence() == EscapeState::Terminator ==> {
                &&& r == EditorStep::Redraw
                &&& *final(history) == *old(history)
                &&& *final(presence) == *old(presence)
                &&& final(self).sequence() == EscapeState::Idle
                &&& final(self).typing() == old(self).typing()
                &&& if old(self).position() < old(self).chars().len() {
                    final(self).chars() == old(self).chars().remove(old(self).position() as int)
                } else {
                    final(self).chars() == old(self).chars()
                }
                &&& final(self).position() == old(self).position()
            },
    {
        let b = match byte {
            None => {
                return EditorStep::Done(EditResult::Eof);
            },
            Some(b) => b,
        };
        match self.escape {
            EscapeState::Idle => {
                let key = key_action(b);
                match key {
                    KeyAction::Cancel => {
                        presence.apply(&RuntimeEvent::InputStopped);
                        EditorStep::Done(EditResult::Cancelled)
                    },
                    KeyAction::EndOfInput => EditorStep::Done(EditResult::Eof),
                    KeyAction::Backspace => {
                        self.buffer.backspace();
                        EditorStep::Redraw
                    },
                    KeyAction::Submit => {
                        presence.apply(&RuntimeEvent::InputStopped);
                        EditorStep::Done(EditResult::Submitted(self.buffer.text()))
                    },
                    KeyAction::ClearScreen => {
                        self.buffer.end();
                        EditorStep::Clear
                    },
                    KeyAction::Escape => {
                        self.escape = EscapeState::Escape;
                        EditorStep::Read
                    },
                    KeyAction::Insert(c) => {
                        if !self.editing {
                            self.editing = true;
                            presence.apply(&RuntimeEvent::InputStarted);
                        }
                        if self.buffer.text.len() < usize::MAX {
                            self.buffer.insert(c);
                        }
                        EditorStep::Redraw
                    },
                    KeyAction::Ignore => EditorStep::Redraw,
                }
            },
            EscapeState::Escape => {
                if b == 91 {
                    self.escape = EscapeState::Bracket;
                    EditorStep::Read
                } else {
                    self.escape = EscapeState::Idle;
                    EditorStep::Redraw
                }
            },
            EscapeState::Bracket => {
                self.escape = EscapeState::Idle;
                match escape_action(b) {
                    EscapeAction::HistoryPrevious => {
                        match history.previous() {
                            Some(previous) => self.buffer.replace(previous.as_str()),
                            None => {},
                        }
                    },
                    EscapeAction::HistoryNext => {
                        match history.next() {
                            Some(next) => self.buffer.replace(next.as_str()),
                            None => {},
                        }
                    },
                    EscapeAction::Right => self.buffer.right(),
                    EscapeAction::Left => self.buffer.left(),
                    EscapeAction::Home => self.buffer.home(),
                    EscapeAction::End => self.buffer.end(),
                    EscapeAction::Delete => {
                        self.escape = EscapeState::Terminator;
                        return EditorStep::Read;
                    },
                    EscapeAction::Ignore => {},
                }
                EditorStep::Redraw
            },
            EscapeState::Terminator => {
                self.escape = EscapeState::Idle;
                self.buffer.delete();
                EditorStep::Redraw
            },
        }
    }
}

} // verus!
