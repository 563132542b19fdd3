//! Editing a text at a cursor. A text is a list of characters and the cursor
//! a position between two of them, counted from the start.

use vstd::prelude::*;

verus! {

/// A key that moves the cursor along the text.
#[derive(Clone, Copy, Debug, PartialEq, Eq, Structural)]
pub enum CursorKey {
    Left,
    Right,
    Home,
    End,
}

/// The text with `added` put in at the cursor. A cursor at or beyond the end
/// of the text appends.
pub open spec fn inserted_at(text: Seq<char>, cursor: int, added: Seq<char>) -> Seq<char> {
    if 0 <= cursor < text.len() {
        text.subrange(0, cursor) + added + text.subrange(cursor, text.len() as int)
    } else {
        text + added
    }
}

/// The text without the character that ends at the position `pos`. A
/// position of zero, or one beyond the end of the text, removes nothing.
pub open spec fn removed_before(text: Seq<char>, pos: int) -> Seq<char> {
    if 0 < pos <= text.len() {
        text.remove(pos - 1)
    } else {
        text
    }
}

/// Where a key moves the cursor in a text of `count` characters: one step to
/// the left or to the right, to the start or to the end, and nowhere from
/// where the key leads no further.
pub open spec fn cursor_after(key: CursorKey, cursor: usize, count: usize) -> usize {
    match key {
        CursorKey::Left => if cursor > 0 {
            (cursor - 1) as usize
        } else {
            cursor
        },
        CursorKey::Right => if cursor < count {
            (cursor + 1) as usize
        } else {
            cursor
        },
        CursorKey::Home => if cursor > 0 {
            0
        } else {
            cursor
        },
        CursorKey::End => if cursor < count {
            count
        } else {
            cursor
        },
    }
}

/// Inserts text at the cursor.
/// ### Arguments
/// - s - characters into which the new text is inserted
/// - cursor_pos - position of the cursor
/// - text - text to insert
/// ### Returns
/// - the built text, and the cursor moved behind what was inserted
pub fn insert_text(s: &Vec<char>, cursor_pos: usize, text: &Vec<char>) -> (r: (Vec<char>, usize))
    ensures
        r.0@ == inserted_at(s@, cursor_pos as int, text@),
        r.1 == if cursor_pos + text.len() > usize::MAX {
            usize::MAX
        } else {
            (cursor_pos + text.len()) as usize
        },
{
    let split: usize = if cursor_pos < s.len() {
        cursor_pos
    } else {
        s.len()
    };
    let mut out: Vec<char> = Vec::new();
    let mut idx: usize = 0;
    while idx < split
        invariant
            idx <= split <= s.len(),
            out@ == s@.subrange(0, idx as int),
        decreases split - idx,
    {
        out.push(s[idx]);
        assert(out@ =~= s@.subrange(0, idx + 1));
        idx += 1;
    }
    let mut at: usize = 0;
    while at < text.len()
        invariant
            at <= text.len(),
            split <= s.len(),
            out@ == s@.subrange(0, split as int) + text@.subrange(0, at as int),
        decreases text.len() - at,
    {
        out.push(text[at]);
        assert(out@ =~= s@.subrange(0, split as int) + text@.subrange(0, at + 1));
        at += 1;
    }
    assert(text@.subrange(0, text.len() as int) =~= text@);
    while idx < s.len()
        invariant
            split <= idx <= s.len(),
            out@ == s@.subrange(0, split as int) + text@ + s@.subrange(split as int, idx as int),
        decreases s.len() - idx,
    {
        out.push(s[idx]);
        assert(out@ =~= s@.subrange(0, split as int) + text@ + s@.subrange(split as int, idx + 1));
        idx += 1;
    }
    assert(out@ =~= inserted_at(s@, cursor_pos as int, text@));
    let cursor = match cursor_pos.checked_add(text.len()) {
        Some(moved) => moved,
        None => usize::MAX,
    };
    (out, cursor)
}

/// Removes the character that ends at the given position.
/// ### Arguments
/// - s - characters from which one is removed
/// - pos - position behind the character to remove
pub fn remove_char_at(s: &Vec<char>, pos: usize) -> (r: Vec<char>)
    ensures
        r@ == removed_before(s@, pos as int),
{
    let mut out: Vec<char> = Vec::new();
    let mut idx: usize = 0;
    while idx < s.len()
        invariant
            idx <= s.len(),
            out@ == removed_before(s@.subrange(0, idx as int), pos as int),
        decreases s.len() - idx,
    {
        if idx + 1 != pos {
            out.push(s[idx]);
        }
        proof {
            let head = s@.subrange(0, idx as int);
            let next = s@.subrange(0, idx + 1);
            assert(next =~= head.push(s@[idx as int]));
            assert(out@ =~= removed_before(next, pos as int));
        }
        idx += 1;
    }
    assert(s@.subrange(0, s.len() as int) =~= s@);
    out
}

/// Moves the cursor by a key.
pub fn move_cursor(key: CursorKey, cursor_pos: usize, chars_count: usize) -> (r: usize)
    ensures
        r == cursor_after(key, cursor_pos, chars_count),
{
    match key {
        CursorKey::Left => if cursor_pos > 0 {
            cursor_pos - 1
        } else {
            cursor_pos
        },
        CursorKey::Right => if cursor_pos < chars_count {
            cursor_pos + 1
        } else {
            cursor_pos
        },
        CursorKey::Home => if cursor_pos > 0 {
            0
        } else {
            cursor_pos
        },
        CursorKey::End => if cursor_pos < chars_count {
            chars_count
        } else {
            cursor_pos
        },
    }
}

} // verus!
