//! Multi-line text area with a cursor, scrolling, limits and validation.
//!
//! The text is held as a list of lines of characters; the cursor is a
//! (line, character) position inside it. There is always at least one line.
//! The cursor always stands between two characters of its line; its byte
//! offset in the line's UTF-8 text is `cursor_byte_offset`, and moving to
//! another line keeps that byte offset.
use vstd::prelude::*;
use crate::text::{utf8_len, utf8_len_at_least, char_utf8_len, char_len_utf8, join_lines, lines_of,
    lemma_join_lines_of, lemma_lines_scan_join, lemma_byte_offset_step, lemma_byte_offset_end, byte_offset, is_char_boundary, index_at_byte,
    index_at_clamped_byte,
    split_lines, join_with_newlines, string_from_chars, chars_of};
use crate::tui::app_types::TuiResult;
use crate::tui::traits::{ComponentId, FieldValidation, HandleResult, KeyCode, KeyEvent, KeyEventKind,
    ValidationResult, ValidationTrigger};

verus! {

/// The editable state of a text area: its lines, the cursor and the first
/// line shown.
pub struct AreaState {
    pub lines: Seq<Seq<char>>,
    pub row: nat,
    pub col: nat,
    pub scroll: nat,
}

/// At least one line and the cursor inside the text.
pub open spec fn area_wf(st: AreaState) -> bool {
    &&& st.lines.len() >= 1
    &&& st.row < st.lines.len()
    &&& st.col <= st.lines[st.row as int].len()
}

/// Typing `ch`: refused when the joined text would exceed `max` bytes.
pub open spec fn area_insert_char(st: AreaState, ch: char, max: Option<usize>) -> AreaState {
    if max is Some && utf8_len(join_lines(st.lines)) + char_utf8_len(ch) > max->0 {
        st
    } else {
        AreaState {
            lines: st.lines.update(st.row as int, st.lines[st.row as int].insert(st.col as int, ch)),
            col: st.col + 1,
            ..st
        }
    }
}

/// Enter: splits the line at the cursor, refused once there are `max` lines.
pub open spec fn area_newline(st: AreaState, max: Option<usize>) -> AreaState {
    if max is Some && st.lines.len() >= max->0 {
        st
    } else {
        let l = st.lines[st.row as int];
        AreaState {
            lines: st.lines.update(st.row as int, l.take(st.col as int)).insert(st.row + 1int, l.skip(st.col as int)),
            row: st.row + 1,
            col: 0,
            ..st
        }
    }
}

/// Backspace: deletes the character before the cursor, or joins the line to
/// the one above when the cursor is at the start of a line.
pub open spec fn area_backspace(st: AreaState) -> AreaState {
    if st.col > 0 {
        AreaState {
            lines: st.lines.update(st.row as int, st.lines[st.row as int].remove(st.col - 1)),
            col: (st.col - 1) as nat,
            ..st
        }
    } else if st.row > 0 {
        let prev = st.lines[st.row - 1];
        AreaState {
            lines: st.lines.remove(st.row as int).update(st.row - 1, prev + st.lines[st.row as int]),
            row: (st.row - 1) as nat,
            col: prev.len(),
            ..st
        }
    } else {
        st
    }
}

/// Delete: deletes the character under the cursor, or joins the next line to
/// this one when the cursor is at the end of a line.
pub open spec fn area_delete(st: AreaState) -> AreaState {
    let l = st.lines[st.row as int];
    if st.col < l.len() {
        AreaState { lines: st.lines.update(st.row as int, l.remove(st.col as int)), ..st }
    } else if st.row + 1 < st.lines.len() {
        AreaState {
            lines: st.lines.remove(st.row + 1int).update(st.row as int, l + st.lines[st.row + 1int]),
            ..st
        }
    } else {
        st
    }
}

pub open spec fn min_nat(a: nat, b: nat) -> nat {
    if a <= b {
        a
    } else {
        b
    }
}

/// The byte offset of the cursor in its line, cut to the encoded length of `line`.
pub open spec fn clamped_offset(st: AreaState, line: Seq<char>) -> nat {
    let b = byte_offset(st.lines[st.row as int], st.col as int);
    if b <= utf8_len(line) {
        b
    } else {
        utf8_len(line)
    }
}

/// Moving to another line keeps the cursor's byte offset where that line is
/// long enough, and goes to its end otherwise.
pub open spec fn area_move_to_line(st: AreaState, row: nat) -> AreaState {
    AreaState { row, col: index_at_byte(st.lines[row as int], clamped_offset(st, st.lines[row as int])), ..st }
}

/// The byte offset the cursor keeps on line `row` falls between two of its
/// characters (otherwise the cursor would point inside a character, which no
/// later edit or drawing can take).
pub open spec fn area_offset_fits(st: AreaState, row: nat) -> bool {
    is_char_boundary(st.lines[row as int], clamped_offset(st, st.lines[row as int]))
}

pub open spec fn area_move_up(st: AreaState) -> AreaState {
    if st.row > 0 {
        area_move_to_line(st, (st.row - 1) as nat)
    } else {
        st
    }
}

pub open spec fn area_move_down(st: AreaState) -> AreaState {
    if st.row + 1 < st.lines.len() {
        area_move_to_line(st, st.row + 1)
    } else {
        st
    }
}

/// Moving up keeps the cursor between two characters.
pub open spec fn area_up_fits(st: AreaState) -> bool {
    st.row > 0 ==> area_offset_fits(st, (st.row - 1) as nat)
}

/// Moving down keeps the cursor between two characters.
pub open spec fn area_down_fits(st: AreaState) -> bool {
    st.row + 1 < st.lines.len() ==> area_offset_fits(st, st.row + 1)
}

/// A key press that moves the cursor up or down keeps it between two characters.
pub open spec fn area_key_fits(st: AreaState, key: KeyEvent) -> bool {
    match key.code {
        KeyCode::Up => key.modifiers.control || area_up_fits(st),
        KeyCode::Down => key.modifiers.control || area_down_fits(st),
        _ => true,
    }
}

pub open spec fn area_move_left(st: AreaState) -> AreaState {
    if st.col > 0 {
        AreaState { col: (st.col - 1) as nat, ..st }
    } else if st.row > 0 {
        AreaState { row: (st.row - 1) as nat, col: st.lines[st.row - 1].len(), ..st }
    } else {
        st
    }
}

pub open spec fn area_move_right(st: AreaState) -> AreaState {
    if st.col < st.lines[st.row as int].len() {
        AreaState { col: st.col + 1, ..st }
    } else if st.row + 1 < st.lines.len() {
        AreaState { row: st.row + 1, col: 0, ..st }
    } else {
        st
    }
}

pub open spec fn area_move_home(st: AreaState) -> AreaState {
    AreaState { col: 0, ..st }
}

pub open spec fn area_move_end(st: AreaState) -> AreaState {
    AreaState { col: st.lines[st.row as int].len(), ..st }
}

/// Half the number of lines, at least one.
pub open spec fn area_page(st: AreaState) -> nat {
    if st.lines.len() / 2 >= 1 {
        st.lines.len() / 2
    } else {
        1
    }
}

pub open spec fn sat_sub(a: nat, b: nat) -> nat {
    if a >= b {
        (a - b) as nat
    } else {
        0
    }
}

pub open spec fn area_page_up(st: AreaState) -> AreaState {
    AreaState {
        row: sat_sub(st.row, area_page(st)),
        scroll: sat_sub(st.scroll, area_page(st)),
        col: 0,
        ..st
    }
}

pub open spec fn area_page_down(st: AreaState) -> AreaState {
    AreaState { row: min_nat(st.row + area_page(st), (st.lines.len() - 1) as nat), col: 0, ..st }
}

pub open spec fn area_scroll_up(st: AreaState) -> AreaState {
    if st.scroll > 0 {
        AreaState { scroll: (st.scroll - 1) as nat, ..st }
    } else {
        st
    }
}

/// Scrolls down while fewer than ten lines would remain below the top.
pub open spec fn area_scroll_down(st: AreaState) -> AreaState {
    if st.scroll < sat_sub(st.lines.len(), 10) {
        AreaState { scroll: st.scroll + 1, ..st }
    } else {
        st
    }
}

/// The state after a key press; Ctrl turns Left/Right into Home/End and
/// Up/Down into scrolling.
pub open spec fn area_key_effect(st: AreaState, key: KeyEvent, max_lines: Option<usize>, max_length: Option<usize>) -> AreaState {
    match key.code {
        KeyCode::Char(c) => area_insert_char(st, c, max_length),
        KeyCode::Enter => area_newline(st, max_lines),
        KeyCode::Backspace => area_backspace(st),
        KeyCode::Delete => area_delete(st),
        KeyCode::Left => if key.modifiers.control { area_move_home(st) } else { area_move_left(st) },
        KeyCode::Right => if key.modifiers.control { area_move_end(st) } else { area_move_right(st) },
        KeyCode::Up => if key.modifiers.control { area_scroll_up(st) } else { area_move_up(st) },
        KeyCode::Down => if key.modifiers.control { area_scroll_down(st) } else { area_move_down(st) },
        KeyCode::Home => area_move_home(st),
        KeyCode::End => area_move_end(st),
        KeyCode::PageUp => area_page_up(st),
        KeyCode::PageDown => area_page_down(st),
        _ => st,
    }
}

/// Whether the text area handles a key press of `code`.
pub open spec fn area_consumes(code: KeyCode) -> bool {
    match code {
        KeyCode::Char(_) | KeyCode::Enter | KeyCode::Backspace | KeyCode::Delete | KeyCode::Left
        | KeyCode::Right | KeyCode::Up | KeyCode::Down | KeyCode::Home | KeyCode::End
        | KeyCode::PageUp | KeyCode::PageDown => true,
        _ => false,
    }
}

/// The lines of a text as `set_text` stores them: the lines of the text, or
/// one empty line for a text without lines, cut to `max` lines.
pub open spec fn area_lines_for(text: Seq<char>, max: Option<usize>) -> Seq<Seq<char>> {
    let ls = if lines_of(text).len() == 0 { seq![Seq::<char>::empty()] } else { lines_of(text) };
    if max is Some && ls.len() > max->0 {
        ls.take(max->0 as int)
    } else {
        ls
    }
}

/// The lines a text area shows: its lines, or its placeholder while the text
/// is empty.
pub open spec fn area_display_lines(st: AreaState, placeholder: Seq<char>) -> Seq<Seq<char>> {
    if st.lines.len() == 0 || (st.lines.len() == 1 && st.lines[0].len() == 0) {
        seq![placeholder]
    } else {
        st.lines
    }
}

/// The pieces of a shown line, each with whether it is drawn as the cursor:
/// the cursor's line is cut before and after the character under the cursor,
/// or ends with a blank cursor when the cursor is past its end.
pub open spec fn row_pieces(line: Seq<char>, is_cursor_row: bool, col: nat) -> Seq<(Seq<char>, bool)> {
    if !is_cursor_row {
        seq![(line, false)]
    } else {
        (if col > 0 {
            seq![(line.take(min_nat(col, line.len()) as int), false)]
        } else {
            Seq::empty()
        }) + if col < line.len() {
            seq![(seq![line[col as int]], true)] + if col + 1 < line.len() {
                seq![(line.skip(col + 1 as int), false)]
            } else {
                Seq::empty()
            }
        } else {
            seq![(" "@, true)]
        }
    }
}

/// The rows a text area shows in `height` lines, from its scroll offset on;
/// the cursor is drawn only while the area has the focus.
pub open spec fn area_rows(st: AreaState, placeholder: Seq<char>, focused: bool, height: nat) -> Seq<
    Seq<(Seq<char>, bool)>,
> {
    let d = area_display_lines(st, placeholder);
    let end = min_nat(st.scroll + height, d.len());
    Seq::new(
        (end - st.scroll) as nat,
        |k: int| row_pieces(d[st.scroll + k], focused && st.scroll + k == st.row, st.col),
    )
}

/// The pieces of a row, each by its characters.
pub open spec fn pieces_view(v: Seq<(String, bool)>) -> Seq<(Seq<char>, bool)> {
    v.map_values(|p: (String, bool)| (p.0@, p.1))
}

fn slice_string(v: &Vec<char>, from: usize, to: usize) -> (r: String)
    requires
        from <= to <= v@.len(),
    ensures
        r@ == v@.subrange(from as int, to as int),
{
    let mut out: Vec<char> = Vec::new();
    let mut i: usize = from;
    while i < to
        invariant
            from <= i <= to <= v@.len(),
            out@ == v@.subrange(from as int, i as int),
        decreases to - i,
    {
        out.push(v[i]);
        i = i + 1;
        assert(out@ =~= v@.subrange(from as int, i as int));
    }
    string_from_chars(&out)
}

fn row_pieces_of(line: &Vec<char>, is_cursor_row: bool, col: usize) -> (r: Vec<(String, bool)>)
    ensures
        pieces_view(r@) == row_pieces(line@, is_cursor_row, col as nat),
{
    let n = line.len();
    let mut out: Vec<(String, bool)> = Vec::new();
    if !is_cursor_row {
        out.push((slice_string(line, 0, n), false));
        assert(line@.subrange(0, n as int) =~= line@);
        assert(pieces_view(out@) =~= row_pieces(line@, is_cursor_row, col as nat));
        return out;
    }
    if col > 0 {
        let m = if col < n {
            col
        } else {
            n
        };
        out.push((slice_string(line, 0, m), false));
        assert(line@.subrange(0, m as int) =~= line@.take(min_nat(col as nat, line@.len()) as int));
    }
    let ghost first = pieces_view(out@);
    if col < n {
        let mut c: Vec<char> = Vec::new();
        c.push(line[col]);
        out.push((string_from_chars(&c), true));
        if col + 1 < n {
            out.push((slice_string(line, col + 1, n), false));
            assert(line@.subrange(col + 1, n as int) =~= line@.skip(col + 1));
        }
    } else {
        let mut blank = String::new();
        crate::text::push_char(&mut blank, ' ');
        proof {
            reveal_strlit(" ");
        }
        assert(blank@ =~= " "@);
        out.push((blank, true));
    }
    assert(pieces_view(out@) =~= row_pieces(line@, is_cursor_row, col as nat));
    out
}

/// Multi-line text area.
pub struct TextArea {
    id: ComponentId,
    lines: Vec<Vec<char>>,
    cursor_row: usize,
    cursor_col: usize,
    scroll_offset: usize,
    max_lines: Option<usize>,
    max_length: Option<usize>,
    placeholder: String,
    focused: bool,
    validation: Option<FieldValidation>,
    validation_result: Option<ValidationResult>,
    title: String,
}

impl TextArea {
    /// Lines, cursor and scroll offset.
    pub closed spec fn state(&self) -> AreaState {
        AreaState {
            lines: self.lines@.map_values(|l: Vec<char>| l@),
            row: self.cursor_row as nat,
            col: self.cursor_col as nat,
            scroll: self.scroll_offset as nat,
        }
    }

    pub closed spec fn max_lines_view(&self) -> Option<usize> {
        self.max_lines
    }

    pub closed spec fn max_length_view(&self) -> Option<usize> {
        self.max_length
    }

    pub closed spec fn placeholder_view(&self) -> Seq<char> {
        self.placeholder@
    }

    pub closed spec fn title_view(&self) -> Seq<char> {
        self.title@
    }

    pub closed spec fn focused_view(&self) -> bool {
        self.focused
    }

    pub closed spec fn id_view(&self) -> ComponentId {
        self.id
    }

    pub closed spec fn validation_view(&self) -> Option<FieldValidation> {
        self.validation
    }

    pub closed spec fn validation_result_view(&self) -> Option<ValidationResult> {
        self.validation_result
    }

    /// The text: the lines joined by newlines.
    pub open spec fn text_view(&self) -> Seq<char> {
        join_lines(self.state().lines)
    }

    pub closed spec fn wf(&self) -> bool {
        area_wf(self.state())
    }

    /// Everything but the text, the cursor and the scroll offset is unchanged.
    pub open spec fn same_settings(&self, other: &TextArea) -> bool {
        &&& self.max_lines_view() == other.max_lines_view()
        &&& self.max_length_view() == other.max_length_view()
        &&& self.placeholder_view() == other.placeholder_view()
        &&& self.title_view() == other.title_view()
        &&& self.focused_view() == other.focused_view()
        &&& self.id_view() == other.id_view()
        &&& self.validation_view() == other.validation_view()
        &&& self.validation_result_view() == other.validation_result_view()
    }

    /// One empty line, the cursor at its start, showing `placeholder`.
    pub fn new(placeholder: &str) -> (r: Self)
        ensures
            r.wf(),
            r.state() == (AreaState { lines: seq![Seq::<char>::empty()], row: 0, col: 0, scroll: 0 }),
            r.placeholder_view() == placeholder@,
            r.title_view() == Seq::<char>::empty(),
            r.max_lines_view() is None,
            r.max_length_view() is None,
            !r.focused_view(),
            r.validation_view() is None,
            r.validation_result_view() matches Some(v) && v.is_valid && v.errors@.len() == 0,
            r.id_view().spec_value() == 0,
    {
        let mut lines: Vec<Vec<char>> = Vec::new();
        lines.push(Vec::new());
        let r = TextArea {
            id: ComponentId::new(0),
            lines,
            cursor_row: 0,
            cursor_col: 0,
            scroll_offset: 0,
            max_lines: None,
            max_length: None,
            placeholder: placeholder.to_owned(),
            focused: false,
            validation: None,
            validation_result: Some(ValidationResult::valid()),
            title: String::new(),
        };
        assert(r.state().lines =~= seq![Seq::<char>::empty()]);
        r
    }

    /// Sets the component identifier.
    pub fn with_id(self, id: ComponentId) -> (r: Self)
        ensures
            area_call_settings(self, AreaCall::WithId(id), r),
            r.id_view() == id,
            r.state() == self.state(),
            r.wf() == self.wf(),
            r.max_lines_view() == self.max_lines_view(),
            r.max_length_view() == self.max_length_view(),
            r.placeholder_view() == self.placeholder_view(),
            r.title_view() == self.title_view(),
            r.focused_view() == self.focused_view(),
            r.validation_view() == self.validation_view(),
            r.validation_result_view() == self.validation_result_view(),
    {
        let mut s = self;
        s.id = id;
        s
    }

    /// Sets the border title.
    pub fn with_title(self, title: &str) -> (r: Self)
        ensures
            area_call_settings(self, AreaCall::WithTitle, r),
            r.title_view() == title@,
            r.state() == self.state(),
            r.wf() == self.wf(),
            r.id_view() == self.id_view(),
            r.max_lines_view() == self.max_lines_view(),
            r.max_length_view() == self.max_length_view(),
            r.placeholder_view() == self.placeholder_view(),
            r.focused_view() == self.focused_view(),
            r.validation_view() == self.validation_view(),
            r.validation_result_view() == self.validation_result_view(),
    {
        let mut s = self;
        s.title = title.to_owned();
        s
    }

    /// Limits the number of lines.
    pub fn with_max_lines(self, max: usize) -> (r: Self)
        ensures
            area_call_settings(self, AreaCall::WithMaxLines(max), r),
            r.max_lines_view() == Some(max),
            r.state() == self.state(),
            r.wf() == self.wf(),
            r.id_view() == self.id_view(),
            r.max_length_view() == self.max_length_view(),
            r.placeholder_view() == self.placeholder_view(),
            r.title_view() == self.title_view(),
            r.focused_view() == self.focused_view(),
            r.validation_view() == self.validation_view(),
            r.validation_result_view() == self.validation_result_view(),
    {
        let mut s = self;
        s.max_lines = Some(max);
        s
    }

    /// Limits the length of the text in bytes.
    pub fn with_max_length(self, max: usize) -> (r: Self)
        ensures
            area_call_settings(self, AreaCall::WithMaxLength(max), r),
            r.max_length_view() == Some(max),
            r.state() == self.state(),
            r.wf() == self.wf(),
            r.id_view() == self.id_view(),
            r.max_lines_view() == self.max_lines_view(),
            r.placeholder_view() == self.placeholder_view(),
            r.title_view() == self.title_view(),
            r.focused_view() == self.focused_view(),
            r.validation_view() == self.validation_view(),
            r.validation_result_view() == self.validation_result_view(),
    {
        let mut s = self;
        s.max_length = Some(max);
        s
    }

    /// Sets the validation rules.
    pub fn with_validation(self, validation: FieldValidation) -> (r: Self)
        ensures
            area_call_settings(self, AreaCall::WithValidation(validation), r),
            r.validation_view() == Some(validation),
            r.state() == self.state(),
            r.wf() == self.wf(),
            r.id_view() == self.id_view(),
            r.max_lines_view() == self.max_lines_view(),
            r.max_length_view() == self.max_length_view(),
            r.placeholder_view() == self.placeholder_view(),
            r.title_view() == self.title_view(),
            r.focused_view() == self.focused_view(),
            r.validation_result_view() == self.validation_result_view(),
    {
        let mut s = self;
        s.validation = Some(validation);
        s
    }

    /// The text as characters: the lines joined by newlines.
    pub fn text_chars(&self) -> (r: Vec<char>)
        ensures
            r@ == self.text_view(),
    {
        join_with_newlines(&self.lines)
    }

    /// The text: the lines joined by newlines.
    pub fn text(&self) -> (r: String)
        ensures
            r@ == self.text_view(),
    {
        let v = self.text_chars();
        string_from_chars(&v)
    }

    /// Replaces the text; the cursor goes to the end of the last line kept.
    pub fn set_text(&mut self, text: String)
        requires
            old(self).wf(),
            old(self).max_lines_view() != Some(0usize),
        ensures
            area_call_settings(*old(self), AreaCall::SetText(text), *final(self)),
            final(self).wf(),
            final(self).state().lines == area_lines_for(text@, old(self).max_lines_view()),
            final(self).state().row == final(self).state().lines.len() - 1,
            final(self).state().col == final(self).state().lines.last().len(),
            final(self).state().scroll == old(self).state().scroll,
            final(self).same_settings(old(self)),
    {
        let chars = chars_of(text.as_str());
        let mut lines = split_lines(&chars);
        if lines.len() == 0 {
            lines.push(Vec::new());
            assert(lines@.map_values(|l: Vec<char>| l@) =~= seq![Seq::<char>::empty()]);
        }
        if let Some(max_lines) = self.max_lines {
            if lines.len() > max_lines {
                let ghost before = lines@;
                lines.truncate(max_lines);
                assert(lines@.map_values(|l: Vec<char>| l@) =~= before.map_values(|l: Vec<char>| l@).take(max_lines as int));
            }
        }
        let n = lines.len();
        let row = n - 1;
        let col = lines[row].len();
        self.lines = lines;
        self.cursor_row = row;
        self.cursor_col = col;
    }

    /// The placeholder.
    pub fn placeholder(&self) -> (r: &str)
        ensures
            r@ == self.placeholder_view(),
    {
        self.placeholder.as_str()
    }

    /// One empty line, the cursor and the scroll offset at the start.
    pub fn clear(&mut self)
        ensures
            area_call_settings(*old(self), AreaCall::Clear, *final(self)),
            final(self).wf(),
            final(self).state() == (AreaState { lines: seq![Seq::<char>::empty()], row: 0, col: 0, scroll: 0 }),
            final(self).same_settings(old(self)),
    {
        let mut lines: Vec<Vec<char>> = Vec::new();
        lines.push(Vec::new());
        self.lines = lines;
        self.cursor_row = 0;
        self.cursor_col = 0;
        self.scroll_offset = 0;
        assert(self.state().lines =~= seq![Seq::<char>::empty()]);
    }

    /// The line under the cursor.
    pub fn current_line(&self) -> (r: String)
        requires
            self.wf(),
        ensures
            r@ == self.state().lines[self.state().row as int],
    {
        string_from_chars(&self.lines[self.cursor_row])
    }

    /// The lines.
    pub fn lines(&self) -> (r: &Vec<Vec<char>>)
        ensures
            r@.map_values(|l: Vec<char>| l@) == self.state().lines,
    {
        &self.lines
    }

    /// The cursor's line.
    pub fn cursor_row(&self) -> (r: usize)
        ensures
            r == self.state().row,
    {
        self.cursor_row
    }

    /// The cursor's byte offset in the UTF-8 text of its line.
    pub open spec fn cursor_byte_offset(&self) -> nat {
        byte_offset(self.state().lines[self.state().row as int], self.state().col as int)
    }

    /// The cursor's position in its line, as a character index; its byte
    /// offset is `cursor_byte_offset`.
    pub fn cursor_col(&self) -> (r: usize)
        ensures
            r == self.state().col,
    {
        self.cursor_col
    }

    /// The first line shown.
    pub fn scroll_offset(&self) -> (r: usize)
        ensures
            r == self.state().scroll,
    {
        self.scroll_offset
    }

    /// The border title.
    pub fn title(&self) -> (r: &str)
        ensures
            r@ == self.title_view(),
    {
        self.title.as_str()
    }

    /// The outcome of the last validation.
    pub fn validation_result(&self) -> (r: &Option<ValidationResult>)
        ensures
            *r == self.validation_result_view(),
    {
        &self.validation_result
    }

    /// Types `ch` at the cursor, unless the text would then exceed the maximum length.
    pub fn insert_char(&mut self, ch: char)
        requires
            old(self).wf(),
        ensures
            final(self).wf(),
            final(self).state() == area_insert_char(old(self).state(), ch, old(self).max_length_view()),
            final(self).same_settings(old(self)),
    {
        if let Some(max_length) = self.max_length {
            let n = char_len_utf8(ch);
            let too_long = if n > max_length {
                true
            } else {
                let joined = self.text_chars();
                utf8_len_at_least(&joined, max_length - n + 1)
            };
            if too_long {
                return;
            }
        }
        let row = self.cursor_row;
        let col = self.cursor_col;
        let ghost st = self.state();
        let mut line = self.lines[row].clone();
        assert(line@ =~= st.lines[row as int]);
        line.insert(col, ch);
        let len = line.len();
        self.lines.set(row, line);
        assert(col < len);
        self.cursor_col = col + 1;
        assert(self.state().lines =~= st.lines.update(row as int, st.lines[row as int].insert(col as int, ch)));
    }

    /// Splits the line at the cursor, unless the maximum number of lines is reached.
    pub fn insert_newline(&mut self)
        requires
            old(self).wf(),
        ensures
            final(self).wf(),
            final(self).state() == area_newline(old(self).state(), old(self).max_lines_view()),
            final(self).same_settings(old(self)),
    {
        if let Some(max_lines) = self.max_lines {
            if self.lines.len() >= max_lines {
                return;
            }
        }
        let row = self.cursor_row;
        let col = self.cursor_col;
        let ghost old_lines = self.lines@;
        let ghost st = self.state();
        let mut head = self.lines[row].clone();
        assert(head@ =~= old_lines[row as int]@);
        let tail = head.split_off(col);
        self.lines.set(row, head);
        assert(row < self.lines@.len());
        let next = row + 1;
        self.lines.insert(next, tail);
        self.cursor_row = row + 1;
        self.cursor_col = 0;
        assert(self.state().lines =~= st.lines.update(row as int, st.lines[row as int].take(col as int)).insert(
            row + 1, st.lines[row as int].skip(col as int)));
    }

    /// Deletes the character before the cursor, or joins the line to the one above.
    pub fn backspace(&mut self)
        requires
            old(self).wf(),
        ensures
            final(self).wf(),
            final(self).state() == area_backspace(old(self).state()),
            final(self).same_settings(old(self)),
    {
        let row = self.cursor_row;
        let col = self.cursor_col;
        let ghost st = self.state();
        if col > 0 {
            let mut line = self.lines[row].clone();
            assert(line@ =~= st.lines[row as int]);
            line.remove(col - 1);
            self.lines.set(row, line);
            self.cursor_col = col - 1;
            assert(self.state().lines =~= st.lines.update(row as int, st.lines[row as int].remove(col - 1)));
        } else if row > 0 {
            let current = self.lines.remove(row);
            let mut prev = self.lines[row - 1].clone();
            assert(prev@ =~= st.lines[row - 1]);
            let prev_len = prev.len();
            let mut j: usize = 0;
            let ghost base = prev@;
            while j < current.len()
                invariant
                    j <= current@.len(),
                    prev@ == base + current@.take(j as int),
                decreases current@.len() - j,
            {
                prev.push(current[j]);
                j = j + 1;
                assert(prev@ =~= base + current@.take(j as int));
            }
            assert(current@.take(j as int) =~= current@);
            self.lines.set(row - 1, prev);
            self.cursor_row = row - 1;
            self.cursor_col = prev_len;
            assert(self.state().lines =~= st.lines.remove(row as int).update(row - 1, st.lines[row - 1] + st.lines[row as int]));
        }
    }

    /// Deletes the character under the cursor, or joins the next line to this one.
    pub fn delete(&mut self)
        requires
            old(self).wf(),
        ensures
            final(self).wf(),
            final(self).state() == area_delete(old(self).state()),
            final(self).same_settings(old(self)),
    {
        let row = self.cursor_row;
        let col = self.cursor_col;
        let ghost st = self.state();
        if col < self.lines[row].len() {
            let mut line = self.lines[row].clone();
            assert(line@ =~= st.lines[row as int]);
            line.remove(col);
            self.lines.set(row, line);
            assert(self.state().lines =~= st.lines.update(row as int, st.lines[row as int].remove(col as int)));
        } else if row < self.lines.len() - 1 {
            let next = self.lines.remove(row + 1);
            let mut cur = self.lines[row].clone();
            assert(cur@ =~= st.lines[row as int]);
            let mut j: usize = 0;
            let ghost base = cur@;
            while j < next.len()
                invariant
                    j <= next@.len(),
                    cur@ == base + next@.take(j as int),
                decreases next@.len() - j,
            {
                cur.push(next[j]);
                j = j + 1;
                assert(cur@ =~= base + next@.take(j as int));
            }
            assert(next@.take(j as int) =~= next@);
            self.lines.set(row, cur);
            assert(self.state().lines =~= st.lines.remove(row + 1).update(row as int, st.lines[row as int] + st.lines[row + 1]));
        }
    }

    /// Puts the cursor on line `row` at the byte offset it had, cut to that
    /// line's length.
    fn move_to_line(&mut self, row: usize)
        requires
            old(self).wf(),
            row < old(self).state().lines.len(),
            area_offset_fits(old(self).state(), row as nat),
        ensures
            final(self).wf(),
            final(self).state() == area_move_to_line(old(self).state(), row as nat),
            final(self).same_settings(old(self)),
    {
        let ghost st = self.state();
        let k = index_at_clamped_byte(&self.lines[self.cursor_row], self.cursor_col, &self.lines[row]);
        match k {
            Some(k) => {
                self.cursor_row = row;
                self.cursor_col = k;
            },
            None => {},
        }
    }

    /// Moves the cursor one line up, keeping its byte offset where the line
    /// is long enough.
    pub fn move_up(&mut self)
        requires
            old(self).wf(),
            area_up_fits(old(self).state()),
        ensures
            final(self).wf(),
            final(self).state() == area_move_up(old(self).state()),
            final(self).same_settings(old(self)),
    {
        if self.cursor_row > 0 {
            let row = self.cursor_row - 1;
            self.move_to_line(row);
        }
    }

    /// Moves the cursor one line down, keeping its byte offset where the line
    /// is long enough.
    pub fn move_down(&mut self)
        requires
            old(self).wf(),
            area_down_fits(old(self).state()),
        ensures
            final(self).wf(),
            final(self).state() == area_move_down(old(self).state()),
            final(self).same_settings(old(self)),
    {
        if self.cursor_row < self.lines.len() - 1 {
            let row = self.cursor_row + 1;
            self.move_to_line(row);
        }
    }

    /// Moves the cursor one character left, to the end of the line above at a line start.
    pub fn move_left(&mut self)
        requires
            old(self).wf(),
        ensures
            final(self).wf(),
            final(self).state() == area_move_left(old(self).state()),
            final(self).same_settings(old(self)),
    {
        if self.cursor_col > 0 {
            self.cursor_col = self.cursor_col - 1;
        } else if self.cursor_row > 0 {
            self.cursor_row = self.cursor_row - 1;
            self.cursor_col = self.lines[self.cursor_row].len();
        }
    }

    /// Moves the cursor one character right, to the start of the next line at a line end.
    pub fn move_right(&mut self)
        requires
            old(self).wf(),
        ensures
            final(self).wf(),
            final(self).state() == area_move_right(old(self).state()),
            final(self).same_settings(old(self)),
    {
        if self.cursor_col < self.lines[self.cursor_row].len() {
            self.cursor_col = self.cursor_col + 1;
        } else if self.cursor_row < self.lines.len() - 1 {
            self.cursor_row = self.cursor_row + 1;
            self.cursor_col = 0;
        }
    }

    /// Moves the cursor to the start of its line.
    pub fn move_home(&mut self)
        requires
            old(self).wf(),
        ensures
            final(self).wf(),
            final(self).state() == area_move_home(old(self).state()),
            final(self).same_settings(old(self)),
    {
        self.cursor_col = 0;
    }

    /// Moves the cursor to the end of its line.
    pub fn move_end(&mut self)
        requires
            old(self).wf(),
        ensures
            final(self).wf(),
            final(self).state() == area_move_end(old(self).state()),
            final(self).same_settings(old(self)),
    {
        self.cursor_col = self.lines[self.cursor_row].len();
    }

    /// Moves the cursor and the view to the start of the text.
    pub fn move_document_start(&mut self)
        requires
            old(self).wf(),
        ensures
            final(self).wf(),
            final(self).state() == (AreaState { row: 0, col: 0, scroll: 0, ..old(self).state() }),
            final(self).same_settings(old(self)),
    {
        self.cursor_row = 0;
        self.cursor_col = 0;
        self.scroll_offset = 0;
    }

    /// Moves the cursor to the end of the last line.
    pub fn move_document_end(&mut self)
        requires
            old(self).wf(),
        ensures
            final(self).wf(),
            final(self).state() == (AreaState {
                row: (old(self).state().lines.len() - 1) as nat,
                col: old(self).state().lines.last().len(),
                ..old(self).state()
            }),
            final(self).same_settings(old(self)),
    {
        self.cursor_row = self.lines.len() - 1;
        self.cursor_col = self.lines[self.cursor_row].len();
    }

    /// Moves the cursor and the view up by half the number of lines.
    pub fn page_up(&mut self)
        requires
            old(self).wf(),
        ensures
            final(self).wf(),
            final(self).state() == area_page_up(old(self).state()),
            final(self).same_settings(old(self)),
    {
        let half = self.lines.len() / 2;
        let page = if half >= 1 { half } else { 1 };
        self.cursor_row = if self.cursor_row >= page { self.cursor_row - page } else { 0 };
        self.scroll_offset = if self.scroll_offset >= page { self.scroll_offset - page } else { 0 };
        self.cursor_col = 0;
    }

    /// Moves the cursor down by half the number of lines.
    pub fn page_down(&mut self)
        requires
            old(self).wf(),
        ensures
            final(self).wf(),
            final(self).state() == area_page_down(old(self).state()),
            final(self).same_settings(old(self)),
    {
        let n = self.lines.len();
        let half = n / 2;
        let page = if half >= 1 { half } else { 1 };
        let last = n - 1;
        self.cursor_row = if self.cursor_row >= last || page >= last - self.cursor_row {
            last
        } else {
            self.cursor_row + page
        };
        self.cursor_col = 0;
    }

    /// Scrolls the view one line up.
    pub fn scroll_up(&mut self)
        requires
            old(self).wf(),
        ensures
            final(self).wf(),
            final(self).state() == area_scroll_up(old(self).state()),
            final(self).same_settings(old(self)),
    {
        if self.scroll_offset > 0 {
            self.scroll_offset = self.scroll_offset - 1;
        }
    }

    /// Scrolls the view one line down, keeping at least ten lines below the top.
    pub fn scroll_down(&mut self)
        requires
            old(self).wf(),
        ensures
            final(self).wf(),
            final(self).state() == area_scroll_down(old(self).state()),
            final(self).same_settings(old(self)),
    {
        let n = self.lines.len();
        let max_scroll = if n >= 10 { n - 10 } else { 0 };
        if self.scroll_offset < max_scroll {
            self.scroll_offset = self.scroll_offset + 1;
        }
    }

    /// Scrolls so that the cursor's line lies in a view `height` rows high,
    /// borders included. A view under three rows leaves no room for the
    /// cursor's line unless it lies above the first line shown.
    pub fn update_scroll_if_needed(&mut self, height: u16)
        requires
            old(self).wf(),
            old(self).state().scroll + height >= 2,
            old(self).state().row < old(self).state().scroll || height >= 3,
        ensures
            area_call_settings(*old(self), AreaCall::UpdateScroll(height), *final(self)),
            final(self).wf(),
            final(self).state().lines == old(self).state().lines,
            final(self).state().row == old(self).state().row,
            final(self).state().col == old(self).state().col,
            final(self).state().scroll == if old(self).state().row < old(self).state().scroll {
                old(self).state().row
            } else if old(self).state().row >= old(self).state().scroll + height - 2 {
                (old(self).state().row - (height - 3)) as nat
            } else {
                old(self).state().scroll
            },
            final(self).same_settings(old(self)),
    {
        let h = height as usize;
        if self.cursor_row < self.scroll_offset {
            self.scroll_offset = self.cursor_row;
        } else if self.cursor_row - self.scroll_offset >= h - 2 {
            self.scroll_offset = self.cursor_row - (h - 3);
        }
    }

    /// `r` is what the attached rules give for the text (valid, with no
    /// message, when there are none).
    pub open spec fn validate_spec_ok(&self, r: ValidationResult) -> bool {
        match self.validation_view() {
            None => r.is_valid && r.errors@.len() == 0,
            Some(v) => r.outcome_of(v.rules(), self.text_view()),
        }
    }

    /// Checks the text against the validation rules; valid when there are none.
    pub fn validate(&self) -> (r: ValidationResult)
        ensures
            self.validate_spec_ok(r),
    {
        match &self.validation {
            Some(v) => {
                let t = self.text_chars();
                v.validate_chars(&t)
            },
            None => ValidationResult::valid(),
        }
    }

    /// Handles a key event: editing and movement keys change the text, the
    /// cursor or the view; other keys are left to the parent.
    pub fn handle_key(&mut self, key: KeyEvent) -> (r: HandleResult)
        requires
            old(self).wf(),
            key.kind != KeyEventKind::Release ==> area_key_fits(old(self).state(), key),
        ensures
            area_call_settings(*old(self), AreaCall::Key(key), *final(self)),
            final(self).wf(),
            key.kind == KeyEventKind::Release ==> r is Ignored && final(self).state() == old(self).state(),
            key.kind != KeyEventKind::Release ==> {
                &&& final(self).state() == area_key_effect(old(self).state(), key, old(self).max_lines_view(),
                    old(self).max_length_view())
                &&& (area_consumes(key.code) ==> r is Consumed)
                &&& (!area_consumes(key.code) ==> r is Ignored)
            },
            final(self).same_settings(old(self)),
    {
        if key.kind == KeyEventKind::Release {
            return HandleResult::Ignored;
        }
        match key.code {
            KeyCode::Char(c) => {
                self.insert_char(c);
                HandleResult::Consumed
            },
            KeyCode::Enter => {
                self.insert_newline();
                HandleResult::Consumed
            },
            KeyCode::Backspace => {
                self.backspace();
                HandleResult::Consumed
            },
            KeyCode::Delete => {
                self.delete();
                HandleResult::Consumed
            },
            KeyCode::Left => {
                if key.modifiers.control {
                    self.move_home();
                } else {
                    self.move_left();
                }
                HandleResult::Consumed
            },
            KeyCode::Right => {
                if key.modifiers.control {
                    self.move_end();
                } else {
                    self.move_right();
                }
                HandleResult::Consumed
            },
            KeyCode::Up => {
                if key.modifiers.control {
                    self.scroll_up();
                } else {
                    self.move_up();
                }
                HandleResult::Consumed
            },
            KeyCode::Down => {
                if key.modifiers.control {
                    self.scroll_down();
                } else {
                    self.move_down();
                }
                HandleResult::Consumed
            },
            KeyCode::Home => {
                self.move_home();
                HandleResult::Consumed
            },
            KeyCode::End => {
                self.move_end();
                HandleResult::Consumed
            },
            KeyCode::PageUp => {
                self.page_up();
                HandleResult::Consumed
            },
            KeyCode::PageDown => {
                self.page_down();
                HandleResult::Consumed
            },
            _ => HandleResult::Ignored,
        }
    }
}

impl TextArea {
    /// The component identifier.
    pub fn id(&self) -> (r: ComponentId)
        ensures
            r == self.id_view(),
    {
        self.id
    }

    /// A text area can always take the focus.
    pub fn can_focus(&self) -> (b: bool)
        ensures
            b,
    {
        true
    }

    /// Whether the text area has the focus.
    pub fn is_focused(&self) -> (b: bool)
        ensures
            b == self.focused_view(),
    {
        self.focused
    }

    /// Takes the focus and, when there are rules, validates the text.
    pub fn on_focus_gain(&mut self) -> (r: TuiResult<()>)
        requires
            old(self).wf(),
        ensures
            area_call_settings(*old(self), AreaCall::FocusGain, *final(self)),
            r is Ok,
            final(self).wf(),
            final(self).focused_view(),
            final(self).state() == old(self).state(),
            old(self).validation_view() is Some ==> (final(self).validation_result_view() matches Some(res) && old(self).validate_spec_ok(res)),
            old(self).validation_view() is None ==> final(self).validation_result_view() == old(self).validation_result_view(),
            final(self).validation_view() == old(self).validation_view(),
            final(self).max_lines_view() == old(self).max_lines_view(),
            final(self).max_length_view() == old(self).max_length_view(),
            final(self).placeholder_view() == old(self).placeholder_view(),
            final(self).title_view() == old(self).title_view(),
            final(self).id_view() == old(self).id_view(),
    {
        self.focused = true;
        if self.validation.is_some() {
            let v = self.validate();
            self.validation_result = Some(v);
        }
        Ok(())
    }

    /// Gives up the focus and validates the text when the rules ask for it on blur.
    pub fn on_focus_loss(&mut self) -> (r: TuiResult<()>)
        requires
            old(self).wf(),
        ensures
            area_call_settings(*old(self), AreaCall::FocusLoss, *final(self)),
            r is Ok,
            final(self).wf(),
            !final(self).focused_view(),
            final(self).state() == old(self).state(),
            (old(self).validation_view() matches Some(v) && v.trigger == ValidationTrigger::OnBlur)
                ==> (final(self).validation_result_view() matches Some(res) && old(self).validate_spec_ok(res)),
            !(old(self).validation_view() matches Some(v) && v.trigger == ValidationTrigger::OnBlur)
                ==> final(self).validation_result_view() == old(self).validation_result_view(),
            final(self).validation_view() == old(self).validation_view(),
            final(self).max_lines_view() == old(self).max_lines_view(),
            final(self).max_length_view() == old(self).max_length_view(),
            final(self).placeholder_view() == old(self).placeholder_view(),
            final(self).title_view() == old(self).title_view(),
            final(self).id_view() == old(self).id_view(),
    {
        self.focused = false;
        let on_blur = match &self.validation {
            Some(v) => v.trigger == ValidationTrigger::OnBlur,
            None => false,
        };
        if on_blur {
            let v = self.validate();
            self.validation_result = Some(v);
        }
        Ok(())
    }

    /// Validates the text when there are rules.
    pub fn on_mount(&mut self) -> (r: TuiResult<()>)
        requires
            old(self).wf(),
        ensures
            area_call_settings(*old(self), AreaCall::Mount, *final(self)),
            r is Ok,
            final(self).wf(),
            final(self).state() == old(self).state(),
            final(self).focused_view() == old(self).focused_view(),
            old(self).validation_view() is Some ==> (final(self).validation_result_view() matches Some(res) && old(self).validate_spec_ok(res)),
            old(self).validation_view() is None ==> final(self).validation_result_view() == old(self).validation_result_view(),
            final(self).validation_view() == old(self).validation_view(),
            final(self).max_lines_view() == old(self).max_lines_view(),
            final(self).max_length_view() == old(self).max_length_view(),
            final(self).placeholder_view() == old(self).placeholder_view(),
            final(self).title_view() == old(self).title_view(),
            final(self).id_view() == old(self).id_view(),
    {
        if self.validation.is_some() {
            let v = self.validate();
            self.validation_result = Some(v);
        }
        Ok(())
    }

    /// Nothing to prepare before drawing; the view is scrolled while drawing.
    pub fn before_render(&mut self) -> (r: TuiResult<()>)
        ensures
            r is Ok,
            *final(self) == *old(self),
    {
        Ok(())
    }

    /// The rows shown in `height` lines, as [`area_rows`] says; the scroll
    /// offset must lie within the shown lines.
    pub fn render_rows(&self, height: usize) -> (r: Vec<Vec<(String, bool)>>)
        requires
            self.state().scroll <= area_display_lines(self.state(), self.placeholder_view()).len(),
        ensures
            r@.len() == area_rows(self.state(), self.placeholder_view(), self.focused_view(), height as nat).len(),
            forall|k: int|
                0 <= k < r@.len() ==> pieces_view(#[trigger] r@[k]@) == area_rows(
                    self.state(),
                    self.placeholder_view(),
                    self.focused_view(),
                    height as nat,
                )[k],
    {
        let st = Ghost(self.state());
        let rows = Ghost(area_rows(self.state(), self.placeholder_view(), self.focused_view(), height as nat));
        let text_empty = self.lines.len() == 0 || (self.lines.len() == 1 && self.lines[0].len() == 0);
        let n: usize = if text_empty {
            1
        } else {
            self.lines.len()
        };
        let ghost d = area_display_lines(st@, self.placeholder_view());
        assert(d.len() == n);
        let start = self.scroll_offset;
        let end: usize = if height <= n - start {
            start + height
        } else {
            n
        };
        let mut out: Vec<Vec<(String, bool)>> = Vec::new();
        let mut i: usize = start;
        while i < end
            invariant
                start <= i <= end <= n,
                start == st@.scroll,
                n == d.len(),
                d == area_display_lines(st@, self.placeholder_view()),
                st@ == self.state(),
                rows@ == area_rows(st@, self.placeholder_view(), self.focused_view(), height as nat),
                end - start == rows@.len(),
                out@.len() == i - start,
                forall|k: int| 0 <= k < out@.len() ==> pieces_view(#[trigger] out@[k]@) == rows@[k],
                text_empty == (st@.lines.len() == 0 || (st@.lines.len() == 1 && st@.lines[0].len() == 0)),
            decreases end - i,
        {
            let line: Vec<char> = if text_empty {
                chars_of(self.placeholder.as_str())
            } else {
                assert(n == self.lines@.len());
                assert(self.lines@[i as int]@ == st@.lines[i as int]);
                let mut c: Vec<char> = Vec::new();
                let mut q: usize = 0;
                while q < self.lines[i].len()
                    invariant
                        i < self.lines@.len(),
                        q <= self.lines@[i as int]@.len(),
                        c@ == self.lines@[i as int]@.take(q as int),
                    decreases self.lines@[i as int]@.len() - q,
                {
                    c.push(self.lines[i][q]);
                    q = q + 1;
                    assert(c@ =~= self.lines@[i as int]@.take(q as int));
                }
                assert(self.lines@[i as int]@.take(q as int) =~= self.lines@[i as int]@);
                c
            };
            assert(line@ == d[i as int]);
            let is_cursor = self.focused && i == self.cursor_row;
            let pieces = row_pieces_of(&line, is_cursor, self.cursor_col);
            out.push(pieces);
            i = i + 1;
        }
        out
    }
}

impl Default for TextArea {
    fn default() -> (r: Self)
        ensures
            r.wf(),
            r.state() == (AreaState { lines: seq![Seq::<char>::empty()], row: 0, col: 0, scroll: 0 }),
            r.placeholder_view() == Seq::<char>::empty(),
    {
        let r = TextArea::new("");
        proof {
            reveal_strlit("");
        }
        r
    }
}

/// Enter followed by Backspace gives back the lines and the cursor, whenever
/// the line limit let Enter split the line.
/// One call of a text area's public interface that takes or gives the area
/// by value or changes it in place; each of these methods states
/// `area_call_settings` of its call in its contract.
pub enum AreaCall {
    SetText(String),
    Clear,
    Key(KeyEvent),
    UpdateScroll(u16),
    WithId(ComponentId),
    WithTitle,
    WithMaxLines(usize),
    WithMaxLength(usize),
    WithValidation(FieldValidation),
    FocusGain,
    FocusLoss,
    Mount,
}

/// Everything but the focus and the last validation outcome is the same.
pub open spec fn area_same_config(a: TextArea, b: TextArea) -> bool {
    &&& b.max_lines_view() == a.max_lines_view()
    &&& b.max_length_view() == a.max_length_view()
    &&& b.placeholder_view() == a.placeholder_view()
    &&& b.title_view() == a.title_view()
    &&& b.id_view() == a.id_view()
    &&& b.validation_view() == a.validation_view()
}

/// What the contract of `call` says of the settings of the area `b` it
/// leaves, starting from `a`.
pub open spec fn area_call_settings(a: TextArea, call: AreaCall, b: TextArea) -> bool {
    match call {
        AreaCall::SetText(_) | AreaCall::Clear | AreaCall::Key(_) | AreaCall::UpdateScroll(_) => b.same_settings(&a),
        AreaCall::WithId(id) => b.id_view() == id && b.state() == a.state() && b.focused_view() == a.focused_view()
            && b.validation_result_view() == a.validation_result_view() && b.max_lines_view() == a.max_lines_view()
            && b.max_length_view() == a.max_length_view() && b.placeholder_view() == a.placeholder_view()
            && b.title_view() == a.title_view() && b.validation_view() == a.validation_view(),
        AreaCall::WithTitle => b.state() == a.state() && b.focused_view() == a.focused_view()
            && b.validation_result_view() == a.validation_result_view() && b.max_lines_view() == a.max_lines_view()
            && b.max_length_view() == a.max_length_view() && b.placeholder_view() == a.placeholder_view()
            && b.id_view() == a.id_view() && b.validation_view() == a.validation_view(),
        AreaCall::WithMaxLines(m) => b.max_lines_view() == Some(m) && b.state() == a.state()
            && b.focused_view() == a.focused_view() && b.validation_result_view() == a.validation_result_view()
            && b.max_length_view() == a.max_length_view() && b.placeholder_view() == a.placeholder_view()
            && b.title_view() == a.title_view() && b.id_view() == a.id_view() && b.validation_view() == a.validation_view(),
        AreaCall::WithMaxLength(m) => b.max_length_view() == Some(m) && b.state() == a.state()
            && b.focused_view() == a.focused_view() && b.validation_result_view() == a.validation_result_view()
            && b.max_lines_view() == a.max_lines_view() && b.placeholder_view() == a.placeholder_view()
            && b.title_view() == a.title_view() && b.id_view() == a.id_view() && b.validation_view() == a.validation_view(),
        AreaCall::WithValidation(v) => b.validation_view() == Some(v) && b.state() == a.state()
            && b.focused_view() == a.focused_view() && b.validation_result_view() == a.validation_result_view()
            && b.max_lines_view() == a.max_lines_view() && b.max_length_view() == a.max_length_view()
            && b.placeholder_view() == a.placeholder_view() && b.title_view() == a.title_view()
            && b.id_view() == a.id_view(),
        AreaCall::FocusGain => b.focused_view() && b.state() == a.state() && area_same_config(a, b),
        AreaCall::FocusLoss => !b.focused_view() && b.state() == a.state() && area_same_config(a, b),
        AreaCall::Mount => b.focused_view() == a.focused_view() && b.state() == a.state() && area_same_config(a, b),
    }
}

/// The placeholder a text area was made with stays through any sequence of
/// calls: `areas[k + 1]` is what `calls[k]` left of `areas[k]`, as the
/// contract of the method making that call states. Starting from
/// `TextArea::new(p)`, the placeholder is `p` after every such sequence.
pub proof fn law_area_placeholder_kept(areas: Seq<TextArea>, calls: Seq<AreaCall>)
    requires
        areas.len() == calls.len() + 1,
        forall|k: int| 0 <= k < calls.len() ==> #[trigger] area_call_settings(areas[k], calls[k], areas[k + 1]),
    ensures
        areas.last().placeholder_view() == areas[0].placeholder_view(),
    decreases calls.len(),
{
    if calls.len() > 0 {
        let n = calls.len() - 1;
        assert forall|k: int| 0 <= k < calls.drop_last().len() implies #[trigger] area_call_settings(
            areas.drop_last()[k], calls.drop_last()[k], areas.drop_last()[k + 1]) by {
            assert(area_call_settings(areas[k], calls[k], areas[k + 1]));
        }
        law_area_placeholder_kept(areas.drop_last(), calls.drop_last());
        assert(area_call_settings(areas[n], calls[n], areas[n + 1]));
    }
}

/// Moving the cursor to another line keeps its byte offset, cut to that
/// line's encoded length, whenever that offset falls between two characters.
pub proof fn law_area_vertical_move_keeps_bytes(st: AreaState, row: nat)
    requires
        area_wf(st),
        row < st.lines.len(),
        area_offset_fits(st, row),
    ensures
        area_move_to_line(st, row).col <= st.lines[row as int].len(),
        byte_offset(st.lines[row as int], area_move_to_line(st, row).col as int) == clamped_offset(st, st.lines[row as int]),
{
}

/// Right then Left comes back to the same place, wherever the cursor is not
/// at the very end of the text: at the end of a line, Right goes to the start
/// of the next one.
pub proof fn law_area_right_then_left(st: AreaState)
    requires
        area_wf(st),
        !(st.row + 1 == st.lines.len() && st.col == st.lines[st.row as int].len()),
    ensures
        area_move_left(area_move_right(st)) == st,
        st.col == st.lines[st.row as int].len() ==> area_move_right(st).row == st.row + 1
            && area_move_right(st).col == 0 && area_move_right(st).lines == st.lines,
{
}

/// Left then Right comes back to the same place, wherever the cursor is not
/// at the very start of the text.
pub proof fn law_area_left_then_right(st: AreaState)
    requires
        area_wf(st),
        !(st.row == 0 && st.col == 0),
    ensures
        area_move_right(area_move_left(st)) == st,
{
}

/// Every character of the lines is ASCII.
pub open spec fn all_ascii(ls: Seq<Seq<char>>) -> bool {
    forall|i: int, j: int| 0 <= i < ls.len() && 0 <= j < ls[i].len() ==> (#[trigger] ls[i][j] as u32) < 0x80
}

/// In an ASCII line, the byte offset of a character index is that index.
proof fn lemma_ascii_byte_offset(l: Seq<char>, k: int)
    requires
        0 <= k <= l.len(),
        forall|j: int| 0 <= j < l.len() ==> (#[trigger] l[j] as u32) < 0x80,
    ensures
        byte_offset(l, k) == k,
    decreases k,
{
    if k > 0 {
        lemma_ascii_byte_offset(l, k - 1);
        lemma_byte_offset_step(l, k - 1);
    }
}

/// In an ASCII text every key is safe to hand to the text area: moving up or
/// down always keeps the cursor between two characters, and typing an ASCII
/// character keeps the text ASCII.
pub proof fn law_area_ascii_keys(st: AreaState, key: KeyEvent, max_lines: Option<usize>, max_length: Option<usize>)
    requires
        area_wf(st),
        all_ascii(st.lines),
        key.code is Char ==> (key.code->Char_0 as u32) < 0x80,
    ensures
        area_key_fits(st, key),
        all_ascii(area_key_effect(st, key, max_lines, max_length).lines),
{
    assert forall|r: nat| r < st.lines.len() implies area_offset_fits(st, r) by {
        let p = st.lines[r as int];
        let l = st.lines[st.row as int];
        assert forall|j: int| 0 <= j < p.len() implies (#[trigger] p[j] as u32) < 0x80 by {
            assert(st.lines[r as int][j] == p[j]);
        }
        assert forall|j: int| 0 <= j < l.len() implies (#[trigger] l[j] as u32) < 0x80 by {
            assert(st.lines[st.row as int][j] == l[j]);
        }
        lemma_ascii_byte_offset(l, st.col as int);
        lemma_ascii_byte_offset(p, p.len() as int);
        lemma_byte_offset_end(p);
        let t = clamped_offset(st, p);
        lemma_ascii_byte_offset(p, t as int);
        assert(0 <= t as int <= p.len() && byte_offset(p, t as int) == t);
    }
    let ls = st.lines;
    let row = st.row as int;
    let l = ls[row];
    let out = area_key_effect(st, key, max_lines, max_length).lines;
    assert forall|i: int, j: int| 0 <= i < out.len() && 0 <= j < out[i].len() implies (#[trigger] out[i][j] as u32) < 0x80 by {
        match key.code {
            KeyCode::Char(c) => {
                if out != ls {
                    let nl = l.insert(st.col as int, c);
                    assert(out == ls.update(row, nl));
                    if i == row {
                        if j < st.col {
                            assert(nl[j] == l[j]);
                        } else if j > st.col {
                            assert(nl[j] == l[j - 1]);
                        }
                    } else {
                        assert(out[i] == ls[i]);
                    }
                }
            },
            KeyCode::Enter => {
                if out != ls {
                    let mid = ls.update(row, l.take(st.col as int));
                    assert(out == mid.insert(row + 1, l.skip(st.col as int)));
                    if i < row {
                        assert(out[i] == ls[i]);
                    } else if i == row {
                        assert(out[i][j] == l[j]);
                    } else if i == row + 1 {
                        assert(out[i][j] == l[j + st.col]);
                    } else {
                        assert(out[i] == ls[i - 1]);
                    }
                }
            },
            KeyCode::Backspace => {
                if st.col > 0 {
                    let nl = l.remove(st.col - 1);
                    if i == row {
                        if j < st.col - 1 {
                            assert(nl[j] == l[j]);
                        } else {
                            assert(nl[j] == l[j + 1]);
                        }
                    } else {
                        assert(out[i] == ls[i]);
                    }
                } else if st.row > 0 {
                    let prev = ls[row - 1];
                    let joined = prev + l;
                    assert(out == ls.remove(row).update(row - 1, joined));
                    if i < row - 1 {
                        assert(out[i] == ls[i]);
                    } else if i == row - 1 {
                        if j < prev.len() {
                            assert(joined[j] == prev[j]);
                        } else {
                            assert(joined[j] == l[j - prev.len()]);
                        }
                    } else {
                        assert(out[i] == ls[i + 1]);
                    }
                }
            },
            KeyCode::Delete => {
                if st.col < l.len() {
                    let nl = l.remove(st.col as int);
                    if i == row {
                        if j < st.col {
                            assert(nl[j] == l[j]);
                        } else {
                            assert(nl[j] == l[j + 1]);
                        }
                    } else {
                        assert(out[i] == ls[i]);
                    }
                } else if st.row + 1 < ls.len() {
                    let next = ls[row + 1];
                    let joined = l + next;
                    assert(out == ls.remove(row + 1).update(row, joined));
                    if i < row {
                        assert(out[i] == ls[i]);
                    } else if i == row {
                        if j < l.len() {
                            assert(joined[j] == l[j]);
                        } else {
                            assert(joined[j] == next[j - l.len()]);
                        }
                    } else {
                        assert(out[i] == ls[i + 1]);
                    }
                }
            },
            _ => {
                assert(out == ls);
            },
        }
    }
}

/// Setting a text without carriage returns that does not end with a newline,
/// and that keeps within the line limit, gives that text back: the lines
/// `set_text` stores join to the text.
pub proof fn law_area_set_text_round_trip(s: Seq<char>, max_lines: Option<usize>)
    requires
        forall|i: int| 0 <= i < s.len() ==> s[i] != '\r',
        s.len() == 0 || s.last() != '\n',
        max_lines matches Some(m) ==> lines_of(s).len() <= m,
    ensures
        join_lines(area_lines_for(s, max_lines)) == s,
{
    if s.len() == 0 {
        assert(lines_of(s).len() == 0);
        let one = seq![Seq::<char>::empty()];
        if max_lines is Some && one.len() > max_lines->0 {
            assert(one.take(max_lines->0 as int) =~= Seq::<Seq<char>>::empty());
        }
        assert(join_lines(one) == Seq::<char>::empty());
        assert(s =~= Seq::<char>::empty());
    } else {
        lemma_join_lines_of(s);
        lemma_lines_scan_join(s);
    }
}

pub proof fn law_area_newline_then_backspace(st: AreaState, max_lines: Option<usize>)
    requires
        area_wf(st),
        !(max_lines is Some && st.lines.len() >= max_lines->0),
    ensures
        area_backspace(area_newline(st, max_lines)) == st,
{
    let l = st.lines[st.row as int];
    let st1 = area_newline(st, max_lines);
    assert(st1.lines[st1.row as int] == l.skip(st.col as int));
    assert(st1.lines[st.row as int] == l.take(st.col as int));
    assert(l.take(st.col as int) + l.skip(st.col as int) =~= l);
    assert(st1.lines.remove(st1.row as int).update(st.row as int, l.take(st.col as int) + l.skip(st.col as int))
        =~= st.lines);
}

/// Typing a character followed by Backspace gives back the lines and the
/// cursor, whenever the length limit let the character in.
pub proof fn law_area_insert_then_backspace(st: AreaState, ch: char, max_length: Option<usize>)
    requires
        area_wf(st),
        !(max_length is Some && utf8_len(join_lines(st.lines)) + char_utf8_len(ch) > max_length->0),
    ensures
        area_backspace(area_insert_char(st, ch, max_length)) == st,
{
    let st1 = area_insert_char(st, ch, max_length);
    let l = st.lines[st.row as int];
    assert(l.insert(st.col as int, ch).remove(st.col as int) =~= l);
    assert(st1.lines.update(st.row as int, l) =~= st.lines);
}

} // verus!
