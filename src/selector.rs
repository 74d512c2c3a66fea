//! The selection state machine: a cursor over a non-empty list, moved by
//! Up and Down, clamped at both ends, and fixed by an exit key; and the
//! frames that draw the list and erase it again.
use vstd::prelude::*;

use crate::color::Color;
use crate::term::{fg_seq, foreground, reset_foreground, reset_seq, up_one_line, up_seq};

verus! {

/// A key as the selector sees it.
#[derive(Clone, Copy, Debug, PartialEq, Eq, Structural)]
pub enum Key {
    Up,
    Down,
    Enter,
    Esc,
    Char(char),
    Other,
}

/// Why a selection could not start.
#[derive(Clone, Copy, Debug, PartialEq, Eq, Structural)]
pub enum SelectError {
    /// There is nothing to select from.
    EmptyList,
}

/// The keys that end a selection: Enter (also read as a newline character),
/// Esc and `q`.
pub open spec fn is_exit(key: Key) -> bool {
    match key {
        Key::Enter | Key::Esc => true,
        Key::Char(c) => c == 'q' || c == '\n',
        _ => false,
    }
}

/// Where the cursor goes on a key in a list of `len` items: Up and Down move
/// it by one unless that would leave the list; other keys leave it.
pub open spec fn next_cursor(len: nat, cursor: nat, key: Key) -> nat {
    match key {
        Key::Up => if cursor > 0 { (cursor - 1) as nat } else { cursor },
        Key::Down => if cursor + 1 < len { cursor + 1 } else { cursor },
        _ => cursor,
    }
}

/// The cursor a selection starts at: the given index, or 0; an index past
/// the end is taken to the last item.
pub open spec fn start_cursor(len: nat, initial: Option<usize>) -> nat {
    match initial {
        Some(i) => if i < len { i as nat } else { (len - 1) as nat },
        None => 0,
    }
}

/// The cursor after moving by each key of `keys` in turn.
pub open spec fn cursor_after(len: nat, start: nat, keys: Seq<Key>) -> nat
    decreases keys.len(),
{
    if keys.len() == 0 {
        start
    } else {
        next_cursor(len, cursor_after(len, start, keys.drop_last()), keys.last())
    }
}

/// The index a session returns when it is fed `keys`: the cursor at the first
/// exit key, or nothing if no exit key comes.
pub open spec fn outcome(len: nat, cursor: nat, keys: Seq<Key>) -> Option<nat>
    decreases keys.len(),
{
    if keys.len() == 0 {
        None
    } else if is_exit(keys[0]) {
        Some(cursor)
    } else {
        outcome(len, next_cursor(len, cursor, keys[0]), keys.drop_first())
    }
}

/// A selection in progress over a list of `len` items.
pub struct Selector {
    len: usize,
    cursor: usize,
}

impl Selector {
    /// The number of items.
    pub closed spec fn len_spec(&self) -> nat {
        self.len as nat
    }

    /// The highlighted index.
    pub closed spec fn cursor_spec(&self) -> nat {
        self.cursor as nat
    }

    /// The cursor points into a non-empty list.
    pub open spec fn wf(&self) -> bool {
        self.cursor_spec() < self.len_spec()
    }

    /// Starts a selection over `len` items at `initial` (an index past the
    /// end goes to the last item); an empty list is refused.
    pub fn new(len: usize, initial: Option<usize>) -> (r: Result<Selector, SelectError>)
        ensures
            len == 0 <==> r is Err,
            r is Err ==> r == Err::<Selector, SelectError>(SelectError::EmptyList),
            r matches Ok(s) ==> s.wf() && s.len_spec() == len && s.cursor_spec() == start_cursor(
                len as nat,
                initial,
            ),
    {
        if len == 0 {
            return Err(SelectError::EmptyList);
        }
        let cursor = match initial {
            Some(i) => if i < len { i } else { len - 1 },
            None => 0,
        };
        Ok(Selector { len, cursor })
    }

    /// The number of items.
    pub fn len(&self) -> (r: usize)
        ensures
            r == self.len_spec(),
    {
        self.len
    }

    /// The highlighted index.
    pub fn cursor(&self) -> (r: usize)
        ensures
            r == self.cursor_spec(),
    {
        self.cursor
    }

    /// Moves the cursor by `key`, which must not be an exit key.
    pub fn move_by(&mut self, key: Key)
        requires
            old(self).wf(),
        ensures
            final(self).wf(),
            final(self).len_spec() == old(self).len_spec(),
            final(self).cursor_spec() == next_cursor(old(self).len_spec(), old(self).cursor_spec(), key),
    {
        match key {
            Key::Up => {
                if self.cursor > 0 {
                    self.cursor = self.cursor - 1;
                }
            },
            Key::Down => {
                if self.cursor < self.len - 1 {
                    self.cursor = self.cursor + 1;
                }
            },
            _ => {},
        }
    }

    /// Handles one poll of the keyboard. No key, or one that is not an exit
    /// key, gives `None` and the cursor moves as `next_cursor` says; an exit
    /// key gives the index chosen and leaves the cursor as it was.
    pub fn handle(&mut self, key: Option<Key>) -> (r: Option<usize>)
        requires
            old(self).wf(),
        ensures
            final(self).wf(),
            final(self).len_spec() == old(self).len_spec(),
            match key {
                None => r is None && final(self).cursor_spec() == old(self).cursor_spec(),
                Some(k) => if is_exit(k) {
                    r == Some(old(self).cursor_spec() as usize) && final(self).cursor_spec()
                        == old(self).cursor_spec()
                } else {
                    r is None && final(self).cursor_spec() == next_cursor(
                        old(self).len_spec(),
                        old(self).cursor_spec(),
                        k,
                    )
                },
            },
    {
        match key {
            None => None,
            Some(k) => {
                let exit = match k {
                    Key::Enter | Key::Esc => true,
                    Key::Char(c) => c == 'q' || c == '\n',
                    _ => false,
                };
                if exit {
                    Some(self.cursor)
                } else {
                    self.move_by(k);
                    None
                }
            },
        }
    }
}

/// Runs a selection over `items` from `initial` on the keys `keys`, as the
/// interactive loop would on those key presses: the index chosen at the first
/// exit key, or `None` if the keys run out first. An empty list is refused.
pub fn select_from_keys(items: &Vec<String>, initial: Option<usize>, keys: &Vec<Key>) -> (r:
    Result<Option<usize>, SelectError>)
    ensures
        items.len() == 0 <==> r is Err,
        r is Err ==> r == Err::<Option<usize>, SelectError>(SelectError::EmptyList),
        r matches Ok(o) ==> match outcome(
            items.len() as nat,
            start_cursor(items.len() as nat, initial),
            keys@,
        ) {
            Some(i) => o == Some(i as usize),
            None => o is None,
        },
{
    let mut s = match Selector::new(items.len(), initial) {
        Ok(s) => s,
        Err(e) => return Err(e),
    };
    assert(keys@.skip(0) == keys@);
    let mut k: usize = 0;
    while k < keys.len()
        invariant
            s.wf(),
            s.len_spec() == items.len(),
            k <= keys.len(),
            outcome(items.len() as nat, start_cursor(items.len() as nat, initial), keys@)
                == outcome(items.len() as nat, s.cursor_spec(), keys@.skip(k as int)),
        decreases keys.len() - k,
    {
        let ghost rest = keys@.skip(k as int);
        assert(rest[0] == keys@[k as int]);
        assert(rest.drop_first() == keys@.skip(k + 1));
        if let Some(i) = s.handle(Some(keys[k])) {
            return Ok(Some(i));
        }
        k = k + 1;
    }
    Ok(None)
}

/// One drawn line: the highlight colour or a reset, the item, and a new line.
pub open spec fn line_of(item: Seq<char>, highlighted: bool, color: Color) -> Seq<char> {
    (if highlighted { fg_seq(color) } else { reset_seq() }) + item + "\n\r"@
}

/// The lines of the first `n` items, with item `selection` highlighted.
pub open spec fn lines_of(items: Seq<String>, selection: nat, color: Color, n: nat) -> Seq<char>
    decreases n,
{
    if n == 0 {
        Seq::empty()
    } else {
        lines_of(items, selection, color, (n - 1) as nat) + line_of(
            items[n - 1]@,
            n - 1 == selection,
            color,
        )
    }
}

/// A whole frame: every item on its own line, then a colour reset.
pub open spec fn frame_of(items: Seq<String>, selection: nat, color: Color) -> Seq<char> {
    lines_of(items, selection, color, items.len()) + reset_seq()
}

/// `s` repeated `n` times.
pub open spec fn repeated(s: Seq<char>, n: nat) -> Seq<char>
    decreases n,
{
    if n == 0 {
        Seq::empty()
    } else {
        repeated(s, (n - 1) as nat) + s
    }
}

/// The text that draws the list with item `selection` in `color`.
pub fn render_frame(items: &Vec<String>, selection: usize, color: Color) -> (r: String)
    ensures
        r@ == frame_of(items@, selection as nat, color),
{
    let on = foreground(color);
    let off = reset_foreground();
    let mut out = String::new();
    let mut i: usize = 0;
    while i < items.len()
        invariant
            i <= items.len(),
            on@ == fg_seq(color),
            off@ == reset_seq(),
            out@ == lines_of(items@, selection as nat, color, i as nat),
        decreases items.len() - i,
    {
        if i == selection {
            out.append(on.as_str());
        } else {
            out.append(off.as_str());
        }
        out.append(items[i].as_str());
        out.append("\n\r");
        i = i + 1;
    }
    out.append(off.as_str());
    out
}

/// The text that takes the caret back up over a frame of `count` lines.
pub fn clear_frame(count: usize) -> (r: String)
    ensures
        r@ == repeated(up_seq(1), count as nat),
{
    let up = up_one_line();
    let mut out = String::new();
    let mut i: usize = 0;
    while i < count
        invariant
            i <= count,
            up@ == up_seq(1),
            out@ == repeated(up_seq(1), i as nat),
        decreases count - i,
    {
        out.append(up.as_str());
        i = i + 1;
    }
    out
}

/// However Up and Down keys come, the cursor never leaves a non-empty list.
pub proof fn lemma_cursor_after_in_range(len: nat, start: nat, keys: Seq<Key>)
    requires
        start < len,
    ensures
        cursor_after(len, start, keys) < len,
    decreases keys.len(),
{
    if keys.len() > 0 {
        lemma_cursor_after_in_range(len, start, keys.drop_last());
    }
}

/// For a non-empty list and any sequence of keys, the cursor stays within the
/// list after every prefix of the sequence: it neither wraps nor overflows.
pub proof fn lemma_cursor_stays_in_list(len: nat, start: nat, keys: Seq<Key>)
    requires
        start < len,
    ensures
        forall|i: int| 0 <= i <= keys.len() ==> #[trigger] cursor_after(len, start, keys.take(i)) < len,
{
    assert forall|i: int| 0 <= i <= keys.len() implies #[trigger] cursor_after(
        len,
        start,
        keys.take(i),
    ) < len by {
        lemma_cursor_after_in_range(len, start, keys.take(i));
    }
}

/// Whatever keys a session is fed, the index it returns lies in the list.
pub proof fn lemma_outcome_in_list(len: nat, cursor: nat, keys: Seq<Key>)
    requires
        cursor < len,
    ensures
        outcome(len, cursor, keys) matches Some(i) ==> i < len,
    decreases keys.len(),
{
    if keys.len() > 0 && !is_exit(keys[0]) {
        lemma_outcome_in_list(len, next_cursor(len, cursor, keys[0]), keys.drop_first());
    }
}

/// Up at the first item stays at the first item, and Down at the last item
/// stays at the last item.
pub proof fn lemma_no_wrap_at_ends(len: nat)
    requires
        len > 0,
    ensures
        next_cursor(len, 0, Key::Up) == 0,
        next_cursor(len, (len - 1) as nat, Key::Down) == len - 1,
{
}

} // verus!
