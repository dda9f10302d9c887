use vstd::prelude::*;

use crate::text::{copy_chars, string_of, chars_of};

verus! {

pub type LineNumber = usize;

/// A line as handed to a renderer: its number and its text.
pub type EditorLine = (LineNumber, String);

/// `(column, row)`, both 0-based.
pub type CursorPosition = (usize, usize);

/// What a buffer records of itself: the text of each line, the cursor, the
/// rendering area and the visible range of rows.
pub type Snapshot = (Seq<Seq<char>>, CursorPosition, Area, (usize, usize));

/// How many snapshots a buffer keeps unless told otherwise.
pub const HISTORY_LIMIT: usize = 100;

/// A rectangle of the screen that a buffer is drawn into.
#[derive(Clone, Copy, Debug, PartialEq, Eq, Structural)]
pub struct Area {
    pub x: u16,
    pub y: u16,
    pub width: u16,
    pub height: u16,
}

/// One line of a buffer: its 1-based number and its characters.
pub struct Line {
    pub number: LineNumber,
    pub text: Vec<char>,
}

#[derive(Clone, Copy, Debug, PartialEq, Eq, Structural)]
pub enum EditorCursorDirection {
    Left,
    Right,
    Up,
    Down,
}

pub enum EditorModelActions {
    Input(char),
    MoveCursor(EditorCursorDirection),
    Backspace,
    AddLine,
    Undo,
    Redo,
}

/// The text of each line.
pub open spec fn texts(v: Seq<Line>) -> Seq<Seq<char>> {
    v.map_values(|l: Line| l.text@)
}

/// Line `i` carries the number `i + 1`.
pub open spec fn numbered(v: Seq<Line>) -> bool {
    forall|i: int| 0 <= i < v.len() ==> #[trigger] v[i].number == i + 1
}

pub open spec fn min_int(a: int, b: int) -> int {
    if a < b {
        a
    } else {
        b
    }
}

/// The visible range of `len` rows in an area `height` rows high that starts as
/// close to `first` as the rows allow: `min(height, len)` rows, never past the end.
pub open spec fn window_for(first: int, height: int, len: int) -> (usize, usize) {
    let size = min_int(height, len);
    let start = min_int(first, len - size);
    (start as usize, (start + size) as usize)
}

/// A cursor and a visible range that fit the lines and the area.
pub open spec fn fits(s: Snapshot) -> bool {
    let (lines, (col, row), area, (first, last)) = s;
    &&& lines.len() >= 1
    &&& row < lines.len()
    &&& col <= lines[row as int].len()
    &&& first <= last <= lines.len()
    &&& last - first == min_int(area.height as int, lines.len() as int)
}

pub open spec fn sat_dec(n: usize) -> usize {
    if n == 0 {
        0
    } else {
        (n - 1) as usize
    }
}

/// The buffer after inserting `c` at the cursor.
pub open spec fn after_insert(s: Snapshot, c: char) -> Snapshot {
    let (lines, (col, row), area, window) = s;
    (lines.update(row as int, lines[row as int].insert(col as int, c)), ((col + 1) as usize, row), area, window)
}

/// The buffer after opening an empty line below the cursor's row.
pub open spec fn after_add_line(s: Snapshot) -> Snapshot {
    let (lines, (col, row), area, (first, last)) = s;
    let new_lines = lines.insert(row + 1, Seq::<char>::empty());
    (new_lines, (0, (row + 1) as usize), area, window_for(first + 1, area.height as int, new_lines.len() as int))
}

/// The buffer after merging the cursor's row into the row above it; nothing
/// changes on the first row.
pub open spec fn after_delete_line(s: Snapshot) -> Snapshot {
    let (lines, (col, row), area, (first, last)) = s;
    if row == 0 {
        s
    } else {
        let above = lines[row - 1];
        let new_lines = lines.update(row - 1, above + lines[row as int]).remove(row as int);
        (new_lines, (above.len() as usize, (row - 1) as usize), area,
            window_for(sat_dec(first) as int, area.height as int, new_lines.len() as int))
    }
}

/// The buffer after a backspace: the character left of the cursor goes, or at
/// column 0 the row merges into the one above.
pub open spec fn after_backspace(s: Snapshot) -> Snapshot {
    let (lines, (col, row), area, window) = s;
    if col > 0 {
        (lines.update(row as int, lines[row as int].remove(col - 1)), ((col - 1) as usize, row), area, window)
    } else {
        after_delete_line(s)
    }
}

/// The buffer after one cursor move.
pub open spec fn after_move(s: Snapshot, d: EditorCursorDirection) -> Snapshot {
    let (lines, (col, row), area, (first, last)) = s;
    let len = lines.len() as int;
    match d {
        EditorCursorDirection::Left => (lines, (sat_dec(col), row), area, (first, last)),
        EditorCursorDirection::Right => (lines, (min_int(col + 1, lines[row as int].len() as int) as usize, row), area, (first, last)),
        EditorCursorDirection::Up => {
            let r = sat_dec(row);
            (lines, (min_int(col as int, lines[r as int].len() as int) as usize, r), area,
                window_for(sat_dec(first) as int, area.height as int, len))
        },
        EditorCursorDirection::Down => {
            let r = min_int(row + 1, len - 1);
            (lines, (min_int(col as int, lines[r].len() as int) as usize, r as usize), area,
                window_for(first + 1, area.height as int, len))
        },
    }
}

/// The buffer after being given the area `area`: the visible range starts at row 0.
pub open spec fn after_resize(s: Snapshot, area: Area) -> Snapshot {
    let (lines, cursor, old_area, window) = s;
    (lines, cursor, area, window_for(0, area.height as int, lines.len() as int))
}

/// The history after recording `s` at position `at`: what lay past `at` is
/// dropped, and the oldest entry goes when more than `limit` are left.
pub open spec fn recorded(past: Seq<Snapshot>, at: int, s: Snapshot, limit: int) -> Seq<Snapshot> {
    let grown = past.subrange(0, at).push(s);
    if grown.len() > limit {
        grown.drop_first()
    } else {
        grown
    }
}

/// A recorded state of a buffer.
pub struct EditorBackupModel {
    pub data: Vec<Line>,
    pub cursor_position: CursorPosition,
    pub current_size: Area,
    pub visible_lines: (usize, usize),
}

impl EditorBackupModel {
    pub open spec fn view(&self) -> Snapshot {
        (texts(self.data@), self.cursor_position, self.current_size, self.visible_lines)
    }

    pub fn new(
        data: Vec<Line>,
        cursor_position: CursorPosition,
        current_size: Area,
        visible_lines: (usize, usize),
    ) -> (r: Self)
        ensures
            r.data@ == data@,
            r.cursor_position == cursor_position,
            r.current_size == current_size,
            r.visible_lines == visible_lines,
    {
        EditorBackupModel { data, cursor_position, current_size, visible_lines }
    }
}

/// A copy of `v`, line by line.
fn copy_lines(v: &Vec<Line>) -> (r: Vec<Line>)
    ensures
        texts(r@) == texts(v@),
        numbered(v@) ==> numbered(r@),
{
    let mut r: Vec<Line> = Vec::new();
    let mut i: usize = 0;
    while i < v.len()
        invariant
            i <= v.len(),
            r@.len() == i,
            forall|j: int| 0 <= j < i ==> (#[trigger] r@[j]).number == v@[j].number && r@[j].text@ == v@[j].text@,
        decreases v.len() - i,
    {
        let text = copy_chars(&v[i].text);
        r.push(Line { number: v[i].number, text });
        i = i + 1;
    }
    assert(texts(r@) =~= texts(v@));
    r
}

/// Gives each line from `start` on the number that its position calls for.
fn renumber(lines: &mut Vec<Line>, start: usize)
    requires
        start <= old(lines)@.len(),
        forall|j: int| 0 <= j < start ==> #[trigger] old(lines)@[j].number == j + 1,
    ensures
        final(lines)@.len() == old(lines)@.len(),
        texts(final(lines)@) == texts(old(lines)@),
        numbered(final(lines)@),
{
    let mut i: usize = start;
    while i < lines.len()
        invariant
            start <= i <= lines@.len(),
            lines@.len() == old(lines)@.len(),
            texts(lines@) == texts(old(lines)@),
            forall|j: int| 0 <= j < i ==> #[trigger] lines@[j].number == j + 1,
        decreases lines@.len() - i,
    {
        let ghost before = lines@;
        lines[i].number = i + 1;
        assert(texts(lines@) =~= texts(before));
        i = i + 1;
    }
}

/// A text editing buffer: lines, a cursor, a visible range of rows and a
/// bounded undo history.
pub struct EditorModel {
    data: Vec<Line>,
    history: Vec<EditorBackupModel>,
    current_history_index: usize,
    history_limit: usize,
    current_size: Area,
    visible_lines: (usize, usize),
    cursor_position: CursorPosition,
}

impl EditorModel {
    /// The text of each line.
    pub open spec fn lines(&self) -> Seq<Seq<char>> {
        self.state().0
    }

    /// The number that each line carries.
    pub closed spec fn line_numbers(&self) -> Seq<usize> {
        self.data@.map_values(|l: Line| l.number)
    }

    /// Lines, cursor, area and visible range, as a snapshot would record them.
    pub closed spec fn state(&self) -> Snapshot {
        (texts(self.data@), self.cursor_position, self.current_size, self.visible_lines)
    }

    /// The recorded snapshots, oldest first.
    pub closed spec fn past(&self) -> Seq<Snapshot> {
        self.history@.map_values(|b: EditorBackupModel| b.view())
    }

    /// How many snapshots count as done; the one before this position is the
    /// state of the last recorded edit, those from it on can be redone.
    pub closed spec fn at(&self) -> int {
        self.current_history_index as int
    }

    /// The most snapshots kept.
    pub closed spec fn limit(&self) -> int {
        self.history_limit as int
    }

    pub closed spec fn buffer_ok(&self) -> bool {
        &&& fits(self.state())
        &&& numbered(self.data@)
    }

    pub closed spec fn history_ok(&self) -> bool {
        &&& 1 <= self.history_limit
        &&& 1 <= self.current_history_index <= self.history@.len() <= self.history_limit
        &&& forall|i: int| 0 <= i < self.history@.len() ==> numbered(#[trigger] self.history@[i].data@)
        &&& forall|i: int| 0 <= i < self.history@.len() ==> fits(#[trigger] self.history@[i].view())
    }

    /// The buffer is consistent and its lines are those of the last recorded edit.
    pub closed spec fn wf(&self) -> bool {
        &&& self.buffer_ok()
        &&& self.history_ok()
        &&& self.past()[self.at() - 1].0 == self.lines()
    }
}


impl EditorModel {
    /// An empty buffer of one line that keeps at most `limit` snapshots.
    pub fn with_history_limit(limit: usize) -> (r: Self)
        requires
            limit >= 1,
        ensures
            r.wf(),
            r.lines() == seq![Seq::<char>::empty()],
            r.state().1 == (0usize, 0usize),
            r.state().2 == (Area { x: 0, y: 0, width: 0, height: 0 }),
            r.state().3 == (0usize, 0usize),
            r.past() == seq![r.state()],
            r.at() == 1,
            r.limit() == limit,
    {
        let mut data: Vec<Line> = Vec::new();
        data.push(Line { number: 1, text: Vec::new() });
        let mut editor = EditorModel {
            data,
            history: Vec::new(),
            current_history_index: 0,
            history_limit: limit,
            current_size: Area { x: 0, y: 0, width: 0, height: 0 },
            visible_lines: (0, 0),
            cursor_position: (0, 0),
        };
        assert(editor.lines() =~= seq![Seq::<char>::empty()]);
        editor.history.push(editor.snapshot());
        editor.current_history_index = 1;
        assert(editor.past() =~= seq![editor.state()]);
        editor
    }

    /// A copy of the current state.
    fn snapshot(&self) -> (r: EditorBackupModel)
        ensures
            r.view() == self.state(),
            numbered(self.data@) ==> numbered(r.data@),
    {
        EditorBackupModel::new(
            copy_lines(&self.data),
            self.cursor_position,
            self.current_size,
            self.visible_lines,
        )
    }

    /// Moves the visible range as close to `first` as the rows allow.
    fn place_window(&mut self, first: usize)
        requires
            old(self).data@.len() >= 1,
        ensures
            final(self).visible_lines == window_for(first as int, old(self).current_size.height as int, old(self).data@.len() as int),
            final(self).data == old(self).data,
            final(self).history == old(self).history,
            final(self).current_history_index == old(self).current_history_index,
            final(self).history_limit == old(self).history_limit,
            final(self).current_size == old(self).current_size,
            final(self).cursor_position == old(self).cursor_position,
    {
        let len = self.data.len();
        let height = self.current_size.height as usize;
        let size = if height < len { height } else { len };
        let start = if first < len - size { first } else { len - size };
        self.visible_lines = (start, start + size);
    }

    /// Records the current state as the newest snapshot, dropping the ones
    /// that could have been redone.
    pub fn backup(&mut self)
        requires
            old(self).buffer_ok(),
            old(self).history_ok(),
        ensures
            final(self).wf(),
            final(self).state() == old(self).state(),
            final(self).limit() == old(self).limit(),
            final(self).past() == recorded(old(self).past(), old(self).at(), old(self).state(), old(self).limit()),
            final(self).at() == final(self).past().len(),
    {
        let snap = self.snapshot();
        self.history.truncate(self.current_history_index);
        self.history.push(snap);
        let ghost grown = self.history@;
        if self.history.len() > self.history_limit {
            self.history.remove(0);
            assert(self.history@ =~= grown.drop_first());
        }
        self.current_history_index = self.history.len();
        proof {
            let old_past = old(self).past();
            let at = old(self).at();
            let g = old_past.subrange(0, at).push(old(self).state());
            assert(grown.map_values(|b: EditorBackupModel| b.view()) =~= g);
            if g.len() > self.limit() {
                assert(self.past() =~= g.drop_first());
            } else {
                assert(self.past() =~= g);
            }
        }
    }
}


impl EditorModel {
    pub closed spec fn same_history(&self, other: &Self) -> bool {
        &&& self.history == other.history
        &&& self.current_history_index == other.current_history_index
        &&& self.history_limit == other.history_limit
    }

    fn put_char(&mut self, c: char)
        requires
            old(self).buffer_ok(),
        ensures
            final(self).buffer_ok(),
            final(self).same_history(old(self)),
            final(self).state() == after_insert(old(self).state(), c),
    {
        let row = self.cursor_position.1;
        let col = self.cursor_position.0;
        let ghost before = self.data@;
        self.data[row].text.insert(col, c);
        let n = self.data[row].text.len();
        assert(col < n);
        self.cursor_position = (col + 1, row);
        assert(texts(self.data@) =~= texts(before).update(row as int, texts(before)[row as int].insert(col as int, c)));
    }

    fn drop_char(&mut self)
        requires
            old(self).buffer_ok(),
            old(self).cursor_position.0 > 0,
        ensures
            final(self).buffer_ok(),
            final(self).same_history(old(self)),
            final(self).state() == after_backspace(old(self).state()),
    {
        let row = self.cursor_position.1;
        let col = self.cursor_position.0;
        let ghost before = self.data@;
        self.data[row].text.remove(col - 1);
        self.cursor_position = (col - 1, row);
        assert(texts(self.data@) =~= texts(before).update(row as int, texts(before)[row as int].remove(col - 1)));
    }

    fn open_line(&mut self)
        requires
            old(self).buffer_ok(),
        ensures
            final(self).buffer_ok(),
            final(self).same_history(old(self)),
            final(self).state() == after_add_line(old(self).state()),
    {
        let row = self.cursor_position.1;
        let first = self.visible_lines.0;
        let ghost before = self.data@;
        let len = self.data.len();
        assert(row < len);
        self.data.insert(row + 1, Line { number: 0, text: Vec::new() });
        let n = self.data.len();
        assert(row + 1 < n);
        let ghost inserted = self.data@;
        assert(texts(inserted) =~= texts(before).insert(row + 1, Seq::<char>::empty()));
        renumber(&mut self.data, row + 1);
        self.cursor_position = (0, row + 1);
        self.place_window(first + 1);
    }

    fn merge_line(&mut self)
        requires
            old(self).buffer_ok(),
        ensures
            final(self).buffer_ok(),
            final(self).same_history(old(self)),
            final(self).state() == after_delete_line(old(self).state()),
    {
        let row = self.cursor_position.1;
        if row == 0 {
            return;
        }
        let first = self.visible_lines.0;
        let ghost before = self.data@;
        let removed = self.data.remove(row);
        let mut tail = removed.text;
        let above_len = self.data[row - 1].text.len();
        self.data[row - 1].text.append(&mut tail);
        let ghost merged = self.data@;
        assert(texts(merged) =~= texts(before).update(row - 1, texts(before)[row - 1] + texts(before)[row as int]).remove(row as int));
        renumber(&mut self.data, row);
        self.cursor_position = (above_len, row - 1);
        let start = if first == 0 { 0 } else { first - 1 };
        self.place_window(start);
    }
}


/// The lines that `load_lines` makes of `v`: one empty line when `v` holds none.
pub open spec fn loaded(v: Seq<String>) -> Seq<Seq<char>> {
    if v.len() == 0 {
        seq![Seq::<char>::empty()]
    } else {
        v.map_values(|s: String| s@)
    }
}

impl EditorModel {
    /// Line `i` carries the number `i + 1`.
    pub open spec fn contiguous_numbers(&self) -> bool {
        &&& self.line_numbers().len() == self.lines().len()
        &&& forall|i: int| 0 <= i < self.line_numbers().len() ==> #[trigger] self.line_numbers()[i] == i + 1
    }

    /// `self` is `before` after an edit that left the buffer as `s` and recorded it.
    pub open spec fn committed(&self, before: Self, s: Snapshot) -> bool {
        &&& self.wf()
        &&& self.contiguous_numbers()
        &&& self.state() == s
        &&& self.past() == recorded(before.past(), before.at(), s, before.limit())
        &&& self.at() == self.past().len()
        &&& self.limit() == before.limit()
    }

    /// `self` is `before` with the buffer changed to `s` and the history untouched.
    pub open spec fn unrecorded(&self, before: Self, s: Snapshot) -> bool {
        &&& self.wf()
        &&& self.contiguous_numbers()
        &&& self.state() == s
        &&& self.past() == before.past()
        &&& self.at() == before.at()
        &&& self.limit() == before.limit()
    }

    /// `self` is `before` after an undo: the snapshot before the last recorded
    /// one comes back, if there is one.
    pub open spec fn undone(&self, before: Self) -> bool {
        &&& self.wf()
        &&& self.contiguous_numbers()
        &&& self.past() == before.past()
        &&& self.limit() == before.limit()
        &&& if before.at() >= 2 {
            self.state() == before.past()[before.at() - 2] && self.at() == before.at() - 1
        } else {
            self.state() == before.state() && self.at() == before.at()
        }
    }

    /// `self` is `before` after a redo: the next snapshot comes back, if there is one.
    pub open spec fn redone(&self, before: Self) -> bool {
        &&& self.wf()
        &&& self.contiguous_numbers()
        &&& self.past() == before.past()
        &&& self.limit() == before.limit()
        &&& if before.at() < before.past().len() {
            self.state() == before.past()[before.at()] && self.at() == before.at() + 1
        } else {
            self.state() == before.state() && self.at() == before.at()
        }
    }

    proof fn lemma_numbers(&self)
        requires
            numbered(self.data@),
        ensures
            self.contiguous_numbers(),
    {
    }

    /// Inserts `c` at the cursor, moves the cursor past it, and records the result.
    pub fn insert_char(&mut self, c: char)
        requires
            old(self).wf(),
        ensures
            final(self).committed(*old(self), after_insert(old(self).state(), c)),
    {
        self.put_char(c);
        self.backup();
        proof { self.lemma_numbers(); }
    }

    /// Opens an empty line below the cursor's row, moves the cursor to its start,
    /// and records the result.
    pub fn add_line(&mut self)
        requires
            old(self).wf(),
        ensures
            final(self).committed(*old(self), after_add_line(old(self).state())),
    {
        self.open_line();
        self.backup();
        proof { self.lemma_numbers(); }
    }

    /// Appends the cursor's row to the row above it and removes it, leaving the
    /// cursor where the two joined; on the first row nothing changes. The result
    /// is recorded either way.
    pub fn delete_line(&mut self)
        requires
            old(self).wf(),
        ensures
            final(self).committed(*old(self), after_delete_line(old(self).state())),
    {
        self.merge_line();
        self.backup();
        proof { self.lemma_numbers(); }
    }

    /// Removes the character left of the cursor, or joins the row to the one
    /// above at column 0, and records the result.
    pub fn backspace(&mut self)
        requires
            old(self).wf(),
        ensures
            final(self).committed(*old(self), after_backspace(old(self).state())),
    {
        if self.cursor_position.0 > 0 {
            self.drop_char();
        } else {
            self.merge_line();
        }
        self.backup();
        proof { self.lemma_numbers(); }
    }

    /// Moves the cursor one step, clamped to the text, shifting the visible
    /// range on vertical moves. Nothing is recorded.
    pub fn move_cursor(&mut self, direction: EditorCursorDirection)
        requires
            old(self).wf(),
        ensures
            final(self).unrecorded(*old(self), after_move(old(self).state(), direction)),
    {
        let col = self.cursor_position.0;
        let row = self.cursor_position.1;
        match direction {
            EditorCursorDirection::Left => {
                self.cursor_position = (if col == 0 { 0 } else { col - 1 }, row);
            },
            EditorCursorDirection::Right => {
                let n = self.data[row].text.len();
                self.cursor_position = (if col < n { col + 1 } else { n }, row);
            },
            EditorCursorDirection::Up => {
                let r = if row == 0 { 0 } else { row - 1 };
                let n = self.data[r].text.len();
                self.cursor_position = (if col < n { col } else { n }, r);
                let first = self.visible_lines.0;
                self.place_window(if first == 0 { 0 } else { first - 1 });
            },
            EditorCursorDirection::Down => {
                let len = self.data.len();
                let r = if row + 1 < len { row + 1 } else { len - 1 };
                let n = self.data[r].text.len();
                self.cursor_position = (if col < n { col } else { n }, r);
                let first = self.visible_lines.0;
                self.place_window(if first < len { first + 1 } else { first });
            },
        }
        proof { self.lemma_numbers(); }
    }

    /// Takes `rect` as the area to draw into; the visible range starts at row 0.
    pub fn resize(&mut self, rect: Area)
        requires
            old(self).wf(),
        ensures
            final(self).unrecorded(*old(self), after_resize(old(self).state(), rect)),
    {
        self.current_size = rect;
        self.place_window(0);
        proof { self.lemma_numbers(); }
    }

    /// Makes snapshot `i` the current state.
    fn restore_entry(&mut self, i: usize)
        requires
            old(self).history_ok(),
            i < old(self).history@.len(),
        ensures
            final(self).buffer_ok(),
            final(self).same_history(old(self)),
            final(self).state() == old(self).past()[i as int],
    {
        assert(fits(self.history@[i as int].view()));
        assert(numbered(self.history@[i as int].data@));
        let data = copy_lines(&self.history[i].data);
        self.data = data;
        self.cursor_position = self.history[i].cursor_position;
        self.current_size = self.history[i].current_size;
        self.visible_lines = self.history[i].visible_lines;
    }

    /// Goes back to the state before the last recorded edit, if there is one.
    pub fn undo(&mut self)
        requires
            old(self).wf(),
        ensures
            final(self).undone(*old(self)),
    {
        if self.current_history_index >= 2 {
            self.restore_entry(self.current_history_index - 2);
            self.current_history_index = self.current_history_index - 1;
        }
        proof { self.lemma_numbers(); }
    }

    /// Goes forward to the state that the last undo left, if there is one.
    pub fn redo(&mut self)
        requires
            old(self).wf(),
        ensures
            final(self).redone(*old(self)),
    {
        if self.current_history_index < self.history.len() {
            self.restore_entry(self.current_history_index);
            self.current_history_index = self.current_history_index + 1;
        }
        proof { self.lemma_numbers(); }
    }
}


/// What `handle_action` does with `action`, as a relation between the buffer
/// before and after.
pub open spec fn handled(before: EditorModel, action: EditorModelActions, after: EditorModel) -> bool {
    match action {
        EditorModelActions::Input(c) => after.committed(before, after_insert(before.state(), c)),
        EditorModelActions::MoveCursor(d) => after.unrecorded(before, after_move(before.state(), d)),
        EditorModelActions::Backspace => after.committed(before, after_backspace(before.state())),
        EditorModelActions::AddLine => after.committed(before, after_add_line(before.state())),
        EditorModelActions::Undo => after.undone(before),
        EditorModelActions::Redo => after.redone(before),
    }
}

impl EditorModel {
    pub fn handle_action(&mut self, action: EditorModelActions)
        requires
            old(self).wf(),
        ensures
            handled(*old(self), action, *final(self)),
    {
        match action {
            EditorModelActions::Input(c) => self.insert_char(c),
            EditorModelActions::MoveCursor(direction) => self.move_cursor(direction),
            EditorModelActions::Backspace => self.backspace(),
            EditorModelActions::AddLine => self.add_line(),
            EditorModelActions::Undo => self.undo(),
            EditorModelActions::Redo => self.redo(),
        }
    }

    pub fn get_cursor_position(&self) -> (r: CursorPosition)
        ensures
            r == self.state().1,
    {
        self.cursor_position
    }

    /// The numbered lines inside the visible range.
    pub fn get_visible_lines(&self) -> (r: Vec<EditorLine>)
        requires
            self.wf(),
        ensures
            r@.len() == self.state().3.1 - self.state().3.0,
            forall|i: int| 0 <= i < r@.len() ==> (#[trigger] r@[i]).0 == self.state().3.0 + i + 1
                && r@[i].1@ == self.lines()[self.state().3.0 + i],
    {
        let (first, last) = self.visible_lines;
        let mut r: Vec<EditorLine> = Vec::new();
        let mut i: usize = first;
        while i < last
            invariant
                first <= i <= last <= self.data@.len(),
                numbered(self.data@),
                r@.len() == i - first,
                forall|j: int| 0 <= j < r@.len() ==> (#[trigger] r@[j]).0 == first + j + 1
                    && r@[j].1@ == texts(self.data@)[first + j],
            decreases last - i,
        {
            let text = string_of(&self.data[i].text);
            r.push((self.data[i].number, text));
            i = i + 1;
        }
        r
    }

    /// The text of every line, in order.
    pub fn export_lines(&self) -> (r: Vec<String>)
        ensures
            r@.len() == self.lines().len(),
            forall|i: int| 0 <= i < r@.len() ==> (#[trigger] r@[i])@ == self.lines()[i],
    {
        let mut r: Vec<String> = Vec::new();
        let mut i: usize = 0;
        while i < self.data.len()
            invariant
                i <= self.data@.len(),
                r@.len() == i,
                forall|j: int| 0 <= j < i ==> (#[trigger] r@[j])@ == texts(self.data@)[j],
            decreases self.data@.len() - i,
        {
            r.push(string_of(&self.data[i].text));
            i = i + 1;
        }
        r
    }

    /// Replaces the whole buffer by `lines` (one empty line when there are
    /// none), puts the cursor at the start, and starts a new history from there.
    pub fn load_lines(&mut self, lines: &Vec<String>)
        requires
            old(self).wf(),
        ensures
            final(self).wf(),
            final(self).contiguous_numbers(),
            final(self).lines() == loaded(lines@),
            final(self).state().1 == (0usize, 0usize),
            final(self).state().2 == old(self).state().2,
            final(self).state().3 == window_for(0, old(self).state().2.height as int, loaded(lines@).len() as int),
            final(self).past() == seq![final(self).state()],
            final(self).at() == 1,
            final(self).limit() == old(self).limit(),
    {
        let mut data: Vec<Line> = Vec::new();
        let mut i: usize = 0;
        while i < lines.len()
            invariant
                i <= lines@.len(),
                data@.len() == i,
                numbered(data@),
                forall|j: int| 0 <= j < i ==> (#[trigger] data@[j]).text@ == lines@[j]@,
            decreases lines@.len() - i,
        {
            data.push(Line { number: i + 1, text: chars_of(lines[i].as_str()) });
            i = i + 1;
        }
        if data.len() == 0 {
            data.push(Line { number: 1, text: Vec::new() });
        }
        assert(texts(data@) =~= loaded(lines@));
        self.data = data;
        self.cursor_position = (0, 0);
        self.place_window(0);
        self.history = Vec::new();
        self.history.push(self.snapshot());
        self.current_history_index = 1;
        assert(self.past() =~= seq![self.state()]);
        proof { self.lemma_numbers(); }
    }
}

impl EditorModel {
    /// An empty buffer of one line, not yet given an area, whose history holds
    /// only that state and keeps the usual number of snapshots.
    pub open spec fn fresh(&self) -> bool {
        &&& self.wf()
        &&& self.lines() == seq![Seq::<char>::empty()]
        &&& self.state().1 == (0usize, 0usize)
        &&& self.state().2 == (Area { x: 0, y: 0, width: 0, height: 0 })
        &&& self.state().3 == (0usize, 0usize)
        &&& self.past() == seq![self.state()]
        &&& self.at() == 1
        &&& self.limit() == HISTORY_LIMIT
    }
}

impl Default for EditorModel {
    fn default() -> (r: Self)
        ensures
            r.fresh(),
    {
        EditorModel::with_history_limit(HISTORY_LIMIT)
    }
}


/// Every well-formed buffer numbers its lines 1, 2, 3, ... in order; each edit
/// keeps its buffer well-formed, so no sequence of edits breaks the numbering.
pub proof fn lemma_line_numbers_contiguous(e: EditorModel)
    requires
        e.wf(),
    ensures
        e.contiguous_numbers(),
{
    e.lemma_numbers();
}

/// An undo right after a recorded edit brings back the lines from before the
/// edit, and the cursor too unless it had moved since the edit before; a redo
/// right after that undo brings back what the edit left. This needs room for
/// two snapshots: a history of one keeps nothing to go back to.
pub proof fn lemma_undo_redo_round_trip(
    before: EditorModel,
    s: Snapshot,
    edited: EditorModel,
    undone: EditorModel,
    redone: EditorModel,
)
    requires
        before.wf(),
        before.limit() >= 2,
        edited.committed(before, s),
        undone.undone(edited),
        redone.redone(undone),
    ensures
        undone.lines() == before.lines(),
        before.state().1 == before.past()[before.at() - 1].1 ==> undone.state().1 == before.state().1,
        redone.state() == edited.state(),
        redone.state() == s,
{
    let at = before.at();
    let grown = before.past().subrange(0, at).push(s);
    assert(grown[at - 1] == before.past()[at - 1]);
    if grown.len() > before.limit() {
        assert(edited.past() == grown.drop_first());
        assert(edited.past()[edited.at() - 2] == grown[at - 1]);
    } else {
        assert(edited.past() == grown);
    }
}

/// After a recorded edit nothing is left to redo: a redo changes nothing.
pub proof fn lemma_edit_clears_redo(before: EditorModel, s: Snapshot, edited: EditorModel, redone: EditorModel)
    requires
        before.wf(),
        edited.committed(before, s),
        redone.redone(edited),
    ensures
        redone.state() == edited.state(),
        redone.past() == edited.past(),
        redone.at() == edited.at(),
{
}

/// The buffer after `k` moves to the right.
pub open spec fn right_presses(s: Snapshot, k: nat) -> Snapshot
    decreases k,
{
    if k == 0 {
        s
    } else {
        right_presses(after_move(s, EditorCursorDirection::Right), (k - 1) as nat)
    }
}

/// Moving right `k` times advances the column by `k` but never past the end
/// of the row; the row, the lines and the visible range stay.
pub proof fn lemma_right_presses_clamp(s: Snapshot, k: nat)
    requires
        fits(s),
        s.0[s.1.1 as int].len() <= usize::MAX,
    ensures
        right_presses(s, k).1.0 == min_int(s.1.0 + k, s.0[s.1.1 as int].len() as int),
        right_presses(s, k).1.0 <= s.0[s.1.1 as int].len(),
        k >= s.0[s.1.1 as int].len() ==> right_presses(s, k).1.0 == s.0[s.1.1 as int].len(),
        right_presses(s, k).1.1 == s.1.1,
        right_presses(s, k).0 == s.0,
        right_presses(s, k).3 == s.3,
    decreases k,
{
    let len = s.0[s.1.1 as int].len() as int;
    if k > 0 {
        let t = after_move(s, EditorCursorDirection::Right);
        assert(t.1.0 == min_int(s.1.0 + 1, len));
        assert(t.0 == s.0 && t.1.1 == s.1.1);
        lemma_right_presses_clamp(t, (k - 1) as nat);
        assert(right_presses(s, k) == right_presses(t, (k - 1) as nat));
    } else {
        assert(s.1.0 <= len);
    }
}


/// The lines written one after another, each but the last followed by a newline.
pub open spec fn joined(lines: Seq<Seq<char>>) -> Seq<char>
    decreases lines.len(),
{
    if lines.len() == 0 {
        Seq::empty()
    } else if lines.len() == 1 {
        lines[0]
    } else {
        joined(lines.drop_last()) + seq!['\n'] + lines.last()
    }
}

/// Undo and redo over recorded snapshots.
pub trait History: Sized {
    /// The value is consistent.
    spec fn ready(&self) -> bool;

    /// `self` is `before` after `restore`.
    spec fn restored_from(&self, before: Self) -> bool;

    /// `self` is `before` after `undo_restore`.
    spec fn reapplied_from(&self, before: Self) -> bool;

    /// `self` is `before` after `backup`.
    spec fn recorded_from(&self, before: Self) -> bool;

    /// The text that `save` gives.
    spec fn saved_text(&self) -> Seq<char>;

    /// Goes back to the state before the last recorded change.
    fn restore(&mut self)
        requires
            old(self).ready(),
        ensures
            final(self).restored_from(*old(self)),
    ;

    /// Goes forward again after `restore`.
    fn undo_restore(&mut self)
        requires
            old(self).ready(),
        ensures
            final(self).reapplied_from(*old(self)),
    ;

    /// Records the current state.
    fn backup(&mut self)
        requires
            old(self).ready(),
        ensures
            final(self).recorded_from(*old(self)),
    ;

    /// The whole text.
    fn save(self) -> (r: String)
        requires
            self.ready(),
        ensures
            r@ == self.saved_text(),
    ;
}

impl History for EditorModel {
    open spec fn ready(&self) -> bool {
        self.wf()
    }

    open spec fn restored_from(&self, before: Self) -> bool {
        self.undone(before)
    }

    open spec fn reapplied_from(&self, before: Self) -> bool {
        self.redone(before)
    }

    open spec fn recorded_from(&self, before: Self) -> bool {
        self.committed(before, before.state())
    }

    open spec fn saved_text(&self) -> Seq<char> {
        joined(self.lines())
    }

    fn restore(&mut self) {
        self.undo();
    }

    fn undo_restore(&mut self) {
        self.redo();
    }

    fn backup(&mut self) {
        EditorModel::backup(self);
        proof { self.lemma_numbers(); }
    }

    fn save(self) -> (r: String) {
        let ghost lines = self.lines();
        let mut text: Vec<char> = Vec::new();
        let mut i: usize = 0;
        while i < self.data.len()
            invariant
                i <= self.data@.len(),
                lines == texts(self.data@),
                lines.len() >= 1,
                i == 0 ==> text@ == Seq::<char>::empty(),
                i > 0 ==> text@ == joined(lines.subrange(0, i as int)),
            decreases self.data@.len() - i,
        {
            if i > 0 {
                text.push('\n');
            }
            let mut j: usize = 0;
            let ghost start = text@;
            while j < self.data[i].text.len()
                invariant
                    i < self.data@.len(),
                    j <= self.data@[i as int].text@.len(),
                    text@ == start + self.data@[i as int].text@.subrange(0, j as int),
                decreases self.data@[i as int].text@.len() - j,
            {
                text.push(self.data[i].text[j]);
                proof {
                    assert(self.data@[i as int].text@.subrange(0, j + 1) =~= self.data@[i as int].text@.subrange(0, j as int).push(self.data@[i as int].text@[j as int]));
                }
                j = j + 1;
            }
            proof {
                assert(self.data@[i as int].text@.subrange(0, j as int) =~= lines[i as int]);
                let next = lines.subrange(0, i + 1);
                assert(next.drop_last() =~= lines.subrange(0, i as int));
                assert(next.last() == lines[i as int]);
                if i == 0 {
                    assert(next.len() == 1);
                    assert(text@ =~= joined(next));
                } else {
                    assert(text@ =~= joined(next));
                }
            }
            i = i + 1;
        }
        assert(lines.subrange(0, lines.len() as int) =~= lines);
        string_of(&text)
    }
}

} // verus!
