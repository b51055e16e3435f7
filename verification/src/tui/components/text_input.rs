//! Single-line text input with a cursor, a placeholder and a password mode.
//!
//! The text is held as characters; the cursor is a character index into it,
//! always between two characters. Its byte offset in the UTF-8 text is
//! `cursor_byte_offset`: typing a character moves it on by that character's
//! encoded length, and the other moves go from one character boundary to the
//! next.
use vstd::prelude::*;
use crate::text::{utf8_len, char_utf8_len, utf8_len_at_least, string_from_chars, chars_of, byte_offset, lemma_byte_offset_step,
    lemma_byte_offset_end};
use crate::tui::app_types::TuiResult;
use crate::tui::traits::{ComponentId, HandleResult, KeyCode, KeyEvent, KeyEventKind};

verus! {

/// Text and cursor after typing `c`: nothing changes once the text takes
/// `max` bytes or more.
pub open spec fn input_insert(s: Seq<char>, cur: nat, c: char, max: Option<usize>) -> (Seq<char>, nat) {
    if max is Some && utf8_len(s) >= max->0 {
        (s, cur)
    } else {
        (s.insert(cur as int, c), cur + 1)
    }
}

/// Text and cursor after deleting the character before the cursor.
pub open spec fn input_backspace(s: Seq<char>, cur: nat) -> (Seq<char>, nat) {
    if cur > 0 {
        (s.remove(cur - 1), (cur - 1) as nat)
    } else {
        (s, cur)
    }
}

/// Text and cursor after deleting the character under the cursor.
pub open spec fn input_delete(s: Seq<char>, cur: nat) -> (Seq<char>, nat) {
    if cur < s.len() {
        (s.remove(cur as int), cur)
    } else {
        (s, cur)
    }
}

/// Text and cursor after a key press of `code`.
pub open spec fn input_key_effect(s: Seq<char>, cur: nat, max: Option<usize>, code: KeyCode) -> (Seq<char>, nat) {
    match code {
        KeyCode::Char(c) => input_insert(s, cur, c, max),
        KeyCode::Backspace => input_backspace(s, cur),
        KeyCode::Delete => input_delete(s, cur),
        KeyCode::Left => (s, if cur > 0 { (cur - 1) as nat } else { cur }),
        KeyCode::Right => (s, if cur < s.len() { cur + 1 } else { cur }),
        KeyCode::Home => (s, 0),
        KeyCode::End => (s, s.len()),
        _ => (s, cur),
    }
}

/// Whether the input handles a key press of `code`.
pub open spec fn input_consumes(code: KeyCode) -> bool {
    match code {
        KeyCode::Char(_) | KeyCode::Backspace | KeyCode::Delete | KeyCode::Left | KeyCode::Right
        | KeyCode::Home | KeyCode::End | KeyCode::Enter => true,
        _ => false,
    }
}

/// Single-line text input.
pub struct TextInput {
    id: ComponentId,
    text: Vec<char>,
    cursor: usize,
    placeholder: String,
    focused: bool,
    password_mode: bool,
    max_length: Option<usize>,
}

impl TextInput {
    /// The characters of the text.
    pub closed spec fn text_view(&self) -> Seq<char> {
        self.text@
    }

    /// The cursor, as a character index.
    pub closed spec fn cursor_view(&self) -> nat {
        self.cursor as nat
    }

    /// The cursor's byte offset in the UTF-8 text.
    pub open spec fn cursor_byte_offset(&self) -> nat {
        byte_offset(self.text_view(), self.cursor_view() as int)
    }

    pub closed spec fn placeholder_view(&self) -> Seq<char> {
        self.placeholder@
    }

    pub closed spec fn focused_view(&self) -> bool {
        self.focused
    }

    pub closed spec fn password_mode_view(&self) -> bool {
        self.password_mode
    }

    pub closed spec fn max_length_view(&self) -> Option<usize> {
        self.max_length
    }

    pub closed spec fn id_view(&self) -> ComponentId {
        self.id
    }

    /// The cursor lies within the text.
    pub closed spec fn wf(&self) -> bool {
        self.cursor <= self.text@.len()
    }

    /// An empty input showing `placeholder`.
    pub fn new(placeholder: &str) -> (r: Self)
        ensures
            r.wf(),
            r.text_view() == Seq::<char>::empty(),
            r.cursor_view() == 0,
            r.placeholder_view() == placeholder@,
            !r.focused_view(),
            !r.password_mode_view(),
            r.max_length_view() is None,
            r.id_view().spec_value() == 0,
    {
        TextInput {
            id: ComponentId::new(0),
            text: Vec::new(),
            cursor: 0,
            placeholder: placeholder.to_owned(),
            focused: false,
            password_mode: false,
            max_length: None,
        }
    }

    /// Sets the component identifier.
    pub fn with_id(self, id: ComponentId) -> (r: Self)
        requires
            self.wf(),
        ensures
            r.wf(),
            r.id_view() == id,
            r.text_view() == self.text_view(),
            r.cursor_view() == self.cursor_view(),
            r.placeholder_view() == self.placeholder_view(),
            r.focused_view() == self.focused_view(),
            r.password_mode_view() == self.password_mode_view(),
            r.max_length_view() == self.max_length_view(),
    {
        let mut s = self;
        s.id = id;
        s
    }

    /// Turns the password mode on or off.
    pub fn with_password_mode(self, enabled: bool) -> (r: Self)
        requires
            self.wf(),
        ensures
            r.wf(),
            r.password_mode_view() == enabled,
            r.id_view() == self.id_view(),
            r.text_view() == self.text_view(),
            r.cursor_view() == self.cursor_view(),
            r.placeholder_view() == self.placeholder_view(),
            r.focused_view() == self.focused_view(),
            r.max_length_view() == self.max_length_view(),
    {
        let mut s = self;
        s.password_mode = enabled;
        s
    }

    /// Limits the text's length in bytes.
    pub fn with_max_length(self, max: usize) -> (r: Self)
        requires
            self.wf(),
        ensures
            r.wf(),
            r.max_length_view() == Some(max),
            r.id_view() == self.id_view(),
            r.text_view() == self.text_view(),
            r.cursor_view() == self.cursor_view(),
            r.placeholder_view() == self.placeholder_view(),
            r.focused_view() == self.focused_view(),
            r.password_mode_view() == self.password_mode_view(),
    {
        let mut s = self;
        s.max_length = Some(max);
        s
    }

    /// The text.
    pub fn text(&self) -> (r: String)
        ensures
            r@ == self.text_view(),
    {
        string_from_chars(&self.text)
    }

    /// The cursor, as a character index; its byte offset is `cursor_byte_offset`.
    pub fn cursor(&self) -> (r: usize)
        ensures
            r == self.cursor_view(),
    {
        self.cursor
    }

    /// Replaces the text and puts the cursor at its end.
    pub fn set_text(&mut self, text: String)
        ensures
            final(self).wf(),
            final(self).text_view() == text@,
            final(self).cursor_view() == text@.len(),
            final(self).placeholder_view() == old(self).placeholder_view(),
            final(self).focused_view() == old(self).focused_view(),
            final(self).password_mode_view() == old(self).password_mode_view(),
            final(self).max_length_view() == old(self).max_length_view(),
            final(self).id_view() == old(self).id_view(),
    {
        self.text = chars_of(text.as_str());
        self.cursor = self.text.len();
    }

    /// The placeholder.
    pub fn placeholder(&self) -> (r: &str)
        ensures
            r@ == self.placeholder_view(),
    {
        self.placeholder.as_str()
    }

    /// Empties the text and puts the cursor at the start.
    pub fn clear(&mut self)
        ensures
            final(self).wf(),
            final(self).text_view() == Seq::<char>::empty(),
            final(self).cursor_view() == 0,
            final(self).placeholder_view() == old(self).placeholder_view(),
            final(self).focused_view() == old(self).focused_view(),
            final(self).password_mode_view() == old(self).password_mode_view(),
            final(self).max_length_view() == old(self).max_length_view(),
            final(self).id_view() == old(self).id_view(),
    {
        self.text.clear();
        self.cursor = 0;
    }

    /// Types `ch` at the cursor, unless the text already takes the maximum length.
    pub fn insert_char(&mut self, ch: char)
        requires
            old(self).wf(),
        ensures
            final(self).wf(),
            (final(self).text_view(), final(self).cursor_view()) == input_insert(
                old(self).text_view(), old(self).cursor_view(), ch, old(self).max_length_view()),
            final(self).placeholder_view() == old(self).placeholder_view(),
            final(self).focused_view() == old(self).focused_view(),
            final(self).password_mode_view() == old(self).password_mode_view(),
            final(self).max_length_view() == old(self).max_length_view(),
            final(self).id_view() == old(self).id_view(),
    {
        if let Some(max) = self.max_length {
            if utf8_len_at_least(&self.text, max) {
                return;
            }
        }
        self.text.insert(self.cursor, ch);
        let n = self.text.len();
        assert(self.cursor < n);
        self.cursor = self.cursor + 1;
    }

    /// Deletes the character before the cursor.
    pub fn backspace(&mut self)
        requires
            old(self).wf(),
        ensures
            final(self).wf(),
            (final(self).text_view(), final(self).cursor_view()) == input_backspace(
                old(self).text_view(), old(self).cursor_view()),
            final(self).placeholder_view() == old(self).placeholder_view(),
            final(self).focused_view() == old(self).focused_view(),
            final(self).password_mode_view() == old(self).password_mode_view(),
            final(self).max_length_view() == old(self).max_length_view(),
            final(self).id_view() == old(self).id_view(),
    {
        if self.cursor > 0 {
            self.cursor = self.cursor - 1;
            self.text.remove(self.cursor);
        }
    }

    /// Deletes the character under the cursor.
    pub fn delete(&mut self)
        requires
            old(self).wf(),
        ensures
            final(self).wf(),
            (final(self).text_view(), final(self).cursor_view()) == input_delete(
                old(self).text_view(), old(self).cursor_view()),
            final(self).placeholder_view() == old(self).placeholder_view(),
            final(self).focused_view() == old(self).focused_view(),
            final(self).password_mode_view() == old(self).password_mode_view(),
            final(self).max_length_view() == old(self).max_length_view(),
            final(self).id_view() == old(self).id_view(),
    {
        if self.cursor < self.text.len() {
            self.text.remove(self.cursor);
        }
    }

    /// Moves the cursor one character to the left.
    pub fn move_left(&mut self)
        requires
            old(self).wf(),
        ensures
            final(self).wf(),
            final(self).text_view() == old(self).text_view(),
            final(self).cursor_view() == if old(self).cursor_view() > 0 {
                (old(self).cursor_view() - 1) as nat
            } else {
                0
            },
            final(self).placeholder_view() == old(self).placeholder_view(),
            final(self).focused_view() == old(self).focused_view(),
            final(self).password_mode_view() == old(self).password_mode_view(),
            final(self).max_length_view() == old(self).max_length_view(),
            final(self).id_view() == old(self).id_view(),
    {
        if self.cursor > 0 {
            self.cursor = self.cursor - 1;
        }
    }

    /// Moves the cursor one character to the right.
    pub fn move_right(&mut self)
        requires
            old(self).wf(),
        ensures
            final(self).wf(),
            final(self).text_view() == old(self).text_view(),
            final(self).cursor_view() == if old(self).cursor_view() < old(self).text_view().len() {
                old(self).cursor_view() + 1
            } else {
                old(self).cursor_view()
            },
            final(self).placeholder_view() == old(self).placeholder_view(),
            final(self).focused_view() == old(self).focused_view(),
            final(self).password_mode_view() == old(self).password_mode_view(),
            final(self).max_length_view() == old(self).max_length_view(),
            final(self).id_view() == old(self).id_view(),
    {
        if self.cursor < self.text.len() {
            self.cursor = self.cursor + 1;
        }
    }

    /// Moves the cursor to the start.
    pub fn move_home(&mut self)
        requires
            old(self).wf(),
        ensures
            final(self).wf(),
            final(self).text_view() == old(self).text_view(),
            final(self).cursor_view() == 0,
            final(self).placeholder_view() == old(self).placeholder_view(),
            final(self).focused_view() == old(self).focused_view(),
            final(self).password_mode_view() == old(self).password_mode_view(),
            final(self).max_length_view() == old(self).max_length_view(),
            final(self).id_view() == old(self).id_view(),
    {
        self.cursor = 0;
    }

    /// Moves the cursor to the end.
    pub fn move_end(&mut self)
        requires
            old(self).wf(),
        ensures
            final(self).wf(),
            final(self).text_view() == old(self).text_view(),
            final(self).cursor_view() == old(self).text_view().len(),
            final(self).placeholder_view() == old(self).placeholder_view(),
            final(self).focused_view() == old(self).focused_view(),
            final(self).password_mode_view() == old(self).password_mode_view(),
            final(self).max_length_view() == old(self).max_length_view(),
            final(self).id_view() == old(self).id_view(),
    {
        self.cursor = self.text.len();
    }

    /// The text as it is shown: one `*` per character in password mode.
    pub fn display_text(&self) -> (r: String)
        ensures
            self.password_mode_view() ==> r@ == Seq::new(self.text_view().len(), |i: int| '*'),
            !self.password_mode_view() ==> r@ == self.text_view(),
    {
        if self.password_mode {
            let mut stars: Vec<char> = Vec::new();
            let mut i: usize = 0;
            while i < self.text.len()
                invariant
                    i <= self.text@.len(),
                    stars@ == Seq::new(i as nat, |j: int| '*'),
                decreases self.text@.len() - i,
            {
                stars.push('*');
                i = i + 1;
                assert(stars@ =~= Seq::new(i as nat, |j: int| '*'));
            }
            string_from_chars(&stars)
        } else {
            string_from_chars(&self.text)
        }
    }

    /// Handles a key event: editing keys change the text or the cursor,
    /// Enter is taken, Esc and other keys are left to the parent.
    pub fn handle_key(&mut self, key: KeyEvent) -> (r: HandleResult)
        requires
            old(self).wf(),
        ensures
            final(self).wf(),
            key.kind == KeyEventKind::Release ==> r is Ignored && final(self).text_view() == old(self).text_view()
                && final(self).cursor_view() == old(self).cursor_view(),
            key.kind != KeyEventKind::Release ==> {
                &&& (final(self).text_view(), final(self).cursor_view()) == input_key_effect(
                    old(self).text_view(), old(self).cursor_view(), old(self).max_length_view(), key.code)
                &&& (input_consumes(key.code) ==> r is Consumed)
                &&& (!input_consumes(key.code) ==> r is Ignored)
            },
            final(self).placeholder_view() == old(self).placeholder_view(),
            final(self).focused_view() == old(self).focused_view(),
            final(self).password_mode_view() == old(self).password_mode_view(),
            final(self).max_length_view() == old(self).max_length_view(),
            final(self).id_view() == old(self).id_view(),
    {
        if key.kind == KeyEventKind::Release {
            return HandleResult::Ignored;
        }
        match key.code {
            KeyCode::Char(ch) => {
                self.insert_char(ch);
                HandleResult::Consumed
            },
            KeyCode::Backspace => {
                self.backspace();
                HandleResult::Consumed
            },
            KeyCode::Delete => {
                self.delete();
                HandleResult::Consumed
            },
            KeyCode::Left => {
                self.move_left();
                HandleResult::Consumed
            },
            KeyCode::Right => {
                self.move_right();
                HandleResult::Consumed
            },
            KeyCode::Home => {
                self.move_home();
                HandleResult::Consumed
            },
            KeyCode::End => {
                self.move_end();
                HandleResult::Consumed
            },
            KeyCode::Enter => HandleResult::Consumed,
            _ => HandleResult::Ignored,
        }
    }

    /// The component identifier.
    pub fn id(&self) -> (r: ComponentId)
        ensures
            r == self.id_view(),
    {
        self.id
    }

    /// A text input can always take the focus.
    pub fn can_focus(&self) -> (b: bool)
        ensures
            b,
    {
        true
    }

    /// Whether the input has the focus.
    pub fn is_focused(&self) -> (b: bool)
        ensures
            b == self.focused_view(),
    {
        self.focused
    }

    /// Takes the focus.
    pub fn on_focus_gain(&mut self) -> (r: TuiResult<()>)
        requires
            old(self).wf(),
        ensures
            final(self).wf(),
            r is Ok,
            final(self).focused_view(),
            final(self).text_view() == old(self).text_view(),
            final(self).cursor_view() == old(self).cursor_view(),
            final(self).placeholder_view() == old(self).placeholder_view(),
            final(self).password_mode_view() == old(self).password_mode_view(),
            final(self).max_length_view() == old(self).max_length_view(),
            final(self).id_view() == old(self).id_view(),
    {
        self.focused = true;
        Ok(())
    }

    /// Gives up the focus.
    pub fn on_focus_loss(&mut self) -> (r: TuiResult<()>)
        requires
            old(self).wf(),
        ensures
            final(self).wf(),
            r is Ok,
            !final(self).focused_view(),
            final(self).text_view() == old(self).text_view(),
            final(self).cursor_view() == old(self).cursor_view(),
            final(self).placeholder_view() == old(self).placeholder_view(),
            final(self).password_mode_view() == old(self).password_mode_view(),
            final(self).max_length_view() == old(self).max_length_view(),
            final(self).id_view() == old(self).id_view(),
    {
        self.focused = false;
        Ok(())
    }
}

impl TextInput {
    /// Nothing to do when the input is mounted.
    pub fn on_mount(&mut self) -> (r: TuiResult<()>)
        ensures
            r is Ok,
            *final(self) == *old(self),
    {
        Ok(())
    }

    /// Nothing to do when the input is unmounted.
    pub fn on_unmount(&mut self) -> (r: TuiResult<()>)
        ensures
            r is Ok,
            *final(self) == *old(self),
    {
        Ok(())
    }
}

impl Default for TextInput {
    fn default() -> (r: Self)
        ensures
            r.wf(),
            r.text_view() == Seq::<char>::empty(),
            r.cursor_view() == 0,
            r.placeholder_view() == Seq::<char>::empty(),
    {
        let r = TextInput::new("");
        proof {
            reveal_strlit("");
        }
        r
    }
}

/// In bytes, a key press moves the cursor as on the UTF-8 text: typing a
/// character moves it on by that character's encoded length, Backspace and
/// Left back by the encoded length of the character before it, Right on by
/// that of the character under it, End to the text's encoded length.
pub proof fn law_input_cursor_bytes(s: Seq<char>, cur: nat, max: Option<usize>, code: KeyCode)
    requires
        cur <= s.len(),
    ensures
        ({
            let (s1, c1) = input_key_effect(s, cur, max, code);
            &&& c1 <= s1.len()
            &&& (code is Char && !(max is Some && utf8_len(s) >= max->0)
                ==> byte_offset(s1, c1 as int) == byte_offset(s, cur as int) + char_utf8_len(code->Char_0))
            &&& ((code is Backspace || code is Left) && cur > 0
                ==> byte_offset(s1, c1 as int) + char_utf8_len(s[cur - 1]) == byte_offset(s, cur as int))
            &&& (code is Right && cur < s.len()
                ==> byte_offset(s1, c1 as int) == byte_offset(s, cur as int) + char_utf8_len(s[cur as int]))
            &&& (code is Delete || code is Up || code is Down ==> byte_offset(s1, c1 as int) == byte_offset(s, cur as int))
            &&& (code is Home ==> byte_offset(s1, c1 as int) == 0)
            &&& (code is End ==> byte_offset(s1, c1 as int) == utf8_len(s))
        }),
{
    let (s1, c1) = input_key_effect(s, cur, max, code);
    match code {
        KeyCode::Char(c) => {
            if !(max is Some && utf8_len(s) >= max->0) {
                assert(s1.take(cur as int) =~= s.take(cur as int));
                lemma_byte_offset_step(s1, cur as int);
            }
        },
        KeyCode::Backspace => {
            if cur > 0 {
                assert(s1.take(cur - 1) =~= s.take(cur - 1));
                lemma_byte_offset_step(s, cur - 1);
            }
        },
        KeyCode::Left => {
            if cur > 0 {
                lemma_byte_offset_step(s, cur - 1);
            }
        },
        KeyCode::Right => {
            if cur < s.len() {
                lemma_byte_offset_step(s, cur as int);
            }
        },
        KeyCode::Delete => {
            if cur < s.len() {
                assert(s1.take(cur as int) =~= s.take(cur as int));
            }
        },
        KeyCode::Home => {
            assert(s1.take(0) =~= Seq::<char>::empty());
        },
        KeyCode::End => {
            lemma_byte_offset_end(s);
        },
        _ => {},
    }
}

/// Typing a character and deleting it again with Backspace gives back the
/// text and the cursor, whenever the character was accepted.
pub proof fn law_input_insert_then_backspace(s: Seq<char>, cur: nat, c: char, max: Option<usize>)
    requires
        cur <= s.len(),
        !(max is Some && utf8_len(s) >= max->0),
    ensures
        ({
            let (s1, c1) = input_insert(s, cur, c, max);
            input_backspace(s1, c1) == (s, cur)
        }),
{
    let (s1, c1) = input_insert(s, cur, c, max);
    assert(s1.remove(cur as int) =~= s);
}

} // verus!
