//! Keys as the player sees them, and the editing of a one-line text field
//! with a character cursor.

use vstd::prelude::*;

use crate::config::byte_len;
use crate::text::push_char;

verus! {

/// The key that was pressed.
#[derive(Debug, Clone, Copy, PartialEq, Eq)]
pub enum KeyCode {
    Char(char),
    Esc,
    Enter,
    Left,
    Right,
    Up,
    Down,
    Home,
    End,
    Backspace,
    Delete,
    /// Any key the player gives no meaning to.
    Other,
}

/// The modifier keys held with a key.
#[derive(Debug, Clone, Copy, PartialEq, Eq)]
pub struct KeyModifiers {
    pub control: bool,
    pub alt: bool,
}

impl KeyModifiers {
    /// No modifier held.
    pub fn none() -> (r: KeyModifiers)
        ensures
            !r.control && !r.alt,
    {
        KeyModifiers { control: false, alt: false }
    }

    /// Control held.
    pub fn control() -> (r: KeyModifiers)
        ensures
            r.control && !r.alt,
    {
        KeyModifiers { control: true, alt: false }
    }

    /// Alt held.
    pub fn alt() -> (r: KeyModifiers)
        ensures
            !r.control && r.alt,
    {
        KeyModifiers { control: false, alt: true }
    }
}

/// A key press.
#[derive(Debug, Clone, Copy, PartialEq, Eq)]
pub struct KeyEvent {
    pub code: KeyCode,
    pub modifiers: KeyModifiers,
}

impl KeyEvent {
    pub fn new(code: KeyCode, modifiers: KeyModifiers) -> (r: KeyEvent)
        ensures
            r.code == code,
            r.modifiers == modifiers,
    {
        KeyEvent { code, modifiers }
    }
}

/// The key is the character `c`, with Control held.
pub open spec fn ctrl_char(key: KeyEvent, c: char) -> bool {
    key.code == KeyCode::Char(c) && key.modifiers.control
}

/// The key is the character `c` (whatever modifiers are held).
pub open spec fn is_char(key: KeyEvent, c: char) -> bool {
    key.code == KeyCode::Char(c)
}

/// The cursor kept inside a text of `len` characters.
pub open spec fn clamp_cursor(cursor: usize, len: nat) -> int {
    if cursor <= len {
        cursor as int
    } else {
        len as int
    }
}

/// `text` inserted into `buf` before character `at`.
pub open spec fn inserted(buf: Seq<char>, at: int, text: Seq<char>) -> Seq<char> {
    buf.subrange(0, at) + text + buf.subrange(at, buf.len() as int)
}

/// The key ends the editing of a field (Esc or Enter).
pub open spec fn ends_field(key: KeyEvent) -> bool {
    key.code is Esc || key.code is Enter
}

/// The key moves the cursor one character left.
pub open spec fn moves_left(key: KeyEvent) -> bool {
    key.code is Left || ctrl_char(key, 'b')
}

/// The key moves the cursor one character right.
pub open spec fn moves_right(key: KeyEvent) -> bool {
    !moves_left(key) && (key.code is Right || ctrl_char(key, 'f'))
}

/// The key moves the cursor to the start (Home and Ctrl+A, with Control held).
pub open spec fn moves_home(key: KeyEvent) -> bool {
    (key.code is Home || key.code == KeyCode::Char('a')) && key.modifiers.control
}

/// The key moves the cursor to the end (End and Ctrl+E, with Control held).
pub open spec fn moves_end(key: KeyEvent) -> bool {
    (key.code is End || key.code == KeyCode::Char('e')) && key.modifiers.control
}

/// The character the key types, if it types one.
pub open spec fn typed_char(key: KeyEvent) -> Option<char> {
    match key.code {
        KeyCode::Char(ch) => if !key.modifiers.control && !key.modifiers.alt {
            Some(ch)
        } else {
            None
        },
        _ => None,
    }
}

/// The text of a field after `key`, with the cursor at `cursor`.
pub open spec fn edited_text(buf: Seq<char>, cursor: usize, key: KeyEvent) -> Seq<char> {
    let c = clamp_cursor(cursor, buf.len());
    if ends_field(key) || moves_left(key) || moves_right(key) || moves_home(key) || moves_end(key) {
        buf
    } else if key.code is Backspace {
        if c > 0 {
            buf.remove(c - 1)
        } else {
            buf
        }
    } else if key.code is Delete {
        if c < buf.len() {
            buf.remove(c)
        } else {
            buf
        }
    } else {
        match typed_char(key) {
            Some(ch) => inserted(buf, c, seq![ch]),
            None => buf,
        }
    }
}

/// The cursor of a field after `key`.
pub open spec fn edited_cursor(buf: Seq<char>, cursor: usize, key: KeyEvent) -> int {
    let c = clamp_cursor(cursor, buf.len());
    if ends_field(key) {
        c
    } else if moves_left(key) {
        if c > 0 {
            c - 1
        } else {
            0
        }
    } else if moves_right(key) {
        if c < buf.len() {
            c + 1
        } else {
            c
        }
    } else if moves_home(key) {
        0
    } else if moves_end(key) {
        buf.len() as int
    } else if key.code is Backspace {
        if c > 0 {
            c - 1
        } else {
            c
        }
    } else if key.code is Delete {
        c
    } else {
        match typed_char(key) {
            Some(ch) => c + 1,
            None => c,
        }
    }
}

/// The byte offset in `text` of the character at `cursor` (the byte length
/// when the cursor is at or past the end).
pub open spec fn spec_byte_index(text: Seq<char>, cursor: usize) -> usize {
    byte_len(text.subrange(0, clamp_cursor(cursor, text.len())))
}

/// The byte offset of character `cursor` in `text`.
pub fn byte_index(text: &str, cursor: usize) -> (r: usize)
    ensures
        r == spec_byte_index(text@, cursor),
{
    let n = text.unicode_len();
    let c = if cursor <= n {
        cursor
    } else {
        n
    };
    text.substring_char(0, c).len()
}

/// `buf` with `text` inserted before character `at`.
fn insert_text(buf: &str, at: usize, text: &str) -> (r: String)
    requires
        at <= buf@.len(),
    ensures
        r@ == inserted(buf@, at as int, text@),
{
    let n = buf.unicode_len();
    let mut out = String::from_str(buf.substring_char(0, at));
    out.append(text);
    out.append(buf.substring_char(at, n));
    out
}

/// `buf` without character `at`.
fn remove_char(buf: &str, at: usize) -> (r: String)
    requires
        at < buf@.len(),
    ensures
        r@ == buf@.remove(at as int),
{
    let n = buf.unicode_len();
    let mut out = String::from_str(buf.substring_char(0, at));
    out.append(buf.substring_char(at + 1, n));
    assert(out@ =~= buf@.remove(at as int));
    out
}

/// Insert `text` at the cursor (kept inside the text) and move the cursor
/// past it.
pub fn insert_at_cursor(buffer: &mut String, cursor: &mut usize, text: &str)
    requires
        *old(cursor) + text@.len() <= usize::MAX,
    ensures
        final(buffer)@ == inserted(old(buffer)@, clamp_cursor(*old(cursor), old(buffer)@.len()), text@),
        *final(cursor) == *old(cursor) + text@.len(),
{
    let n = buffer.as_str().unicode_len();
    let at = if *cursor <= n {
        *cursor
    } else {
        n
    };
    let updated = insert_text(buffer.as_str(), at, text);
    *buffer = updated;
    *cursor = *cursor + text.unicode_len();
}

/// Apply an editing key to a text field; true when the key ends the editing
/// (Esc or Enter).
pub fn edit_field(key: KeyEvent, buffer: &mut String, cursor: &mut usize) -> (done: bool)
    requires
        old(buffer)@.len() < usize::MAX,
    ensures
        done == ends_field(key),
        final(buffer)@ == edited_text(old(buffer)@, *old(cursor), key),
        *final(cursor) == edited_cursor(old(buffer)@, *old(cursor), key),
{
    let len = buffer.as_str().unicode_len();
    let c = if *cursor > len {
        len
    } else {
        *cursor
    };
    let ctrl = key.modifiers.control;
    let (text, at, done): (Option<String>, usize, bool) = match key.code {
        KeyCode::Esc | KeyCode::Enter => (None, c, true),
        KeyCode::Left => (None, if c > 0 { c - 1 } else { 0 }, false),
        KeyCode::Char('b') if ctrl => (None, if c > 0 { c - 1 } else { 0 }, false),
        KeyCode::Right => (None, if c < len { c + 1 } else { c }, false),
        KeyCode::Char('f') if ctrl => (None, if c < len { c + 1 } else { c }, false),
        KeyCode::Home if ctrl => (None, 0, false),
        KeyCode::Char('a') if ctrl => (None, 0, false),
        KeyCode::End if ctrl => (None, len, false),
        KeyCode::Char('e') if ctrl => (None, len, false),
        KeyCode::Backspace => {
            if c > 0 {
                (Some(remove_char(buffer.as_str(), c - 1)), c - 1, false)
            } else {
                (None, c, false)
            }
        },
        KeyCode::Delete => {
            if c < len {
                (Some(remove_char(buffer.as_str(), c)), c, false)
            } else {
                (None, c, false)
            }
        },
        KeyCode::Char(ch) if !ctrl && !key.modifiers.alt => {
            let mut one = String::new();
            push_char(&mut one, ch);
            (Some(insert_text(buffer.as_str(), c, one.as_str())), c + 1, false)
        },
        _ => (None, c, false),
    };
    if let Some(t) = text {
        *buffer = t;
    }
    *cursor = at;
    done
}

/// `text` without line breaks (`\n` and `\r`).
pub open spec fn without_line_breaks(text: Seq<char>) -> Seq<char> {
    text.filter(|c: char| c != '\n' && c != '\r')
}

/// `text` with its line breaks removed, as a paste into a one-line field.
pub fn strip_line_breaks(text: &str) -> (r: String)
    ensures
        r@ == without_line_breaks(text@),
{
    let n = text.unicode_len();
    let mut out = String::new();
    let mut i: usize = 0;
    while i < n
        invariant
            n == text@.len(),
            i <= n,
            out@ == without_line_breaks(text@.subrange(0, i as int)),
        decreases n - i,
    {
        let c = text.get_char(i);
        proof {
            let p = |c: char| c != '\n' && c != '\r';
            assert(text@.subrange(0, i + 1) =~= text@.subrange(0, i as int).push(c));
            text@.subrange(0, i as int).lemma_filter_push(c, p);
        }
        if c != '\n' && c != '\r' {
            push_char(&mut out, c);
        }
        i = i + 1;
    }
    assert(text@.subrange(0, n as int) =~= text@);
    out
}

} // verus!
