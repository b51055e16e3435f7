//! Inline tag editing with suggestions taken from the known tags.
//!
//! The input is held as characters; tags and suggestions as strings.
use vstd::prelude::*;
use vstd::string::StringExecFns;
use crate::sync::records::strings_view;
use crate::tui::commands::lines_view;
use crate::text::{chars_of, push_chars, push_str, contains_chars, contains_sub, lowercase, lowercase_chars, string_from_chars, to_lowercase, trim_chars, trimmed};
use crate::tui::app_types::TuiResult;
use crate::tui::traits::{ComponentId, HandleResult, KeyCode, KeyEvent, KeyEventKind};

verus! {

/// Model of a tag editor.
pub struct TagEditorView {
    pub id: ComponentId,
    pub tags: Seq<Seq<char>>,
    pub input: Seq<char>,
    pub focused: bool,
    pub suggestions: Seq<Seq<char>>,
    pub selected: Option<nat>,
    pub all_tags: Seq<Seq<char>>,
}

/// The tags after committing the input: its trimmed text is appended unless
/// it is empty or already a tag.
pub open spec fn committed(tags: Seq<Seq<char>>, input: Seq<char>) -> Seq<Seq<char>> {
    let t = trimmed(input);
    if t.len() > 0 && !tags.contains(t) {
        tags.push(t)
    } else {
        tags
    }
}

/// The known tags that contain the lower-case query (compared in lower case)
/// and are not tags yet, in order.
pub open spec fn matching_tags(all: Seq<Seq<char>>, tags: Seq<Seq<char>>, query_lower: Seq<char>) -> Seq<Seq<char>>
    decreases all.len(),
{
    if all.len() == 0 {
        Seq::empty()
    } else {
        let rest = matching_tags(all.drop_last(), tags, query_lower);
        let t = all.last();
        if contains_sub(lowercase(t), query_lower) && !tags.contains(t) {
            rest.push(t)
        } else {
            rest
        }
    }
}

/// At most the first five entries.
pub open spec fn first_five(s: Seq<Seq<char>>) -> Seq<Seq<char>> {
    if s.len() <= 5 {
        s
    } else {
        s.take(5)
    }
}

/// The suggestions for the input: none for an empty input, otherwise the
/// first five matching known tags.
pub open spec fn suggestions_for(all: Seq<Seq<char>>, tags: Seq<Seq<char>>, input: Seq<char>) -> Seq<Seq<char>> {
    if input.len() == 0 {
        Seq::empty()
    } else {
        first_five(matching_tags(all, tags, lowercase(input)))
    }
}

/// The editor with its suggestions recomputed for its input; the first one selected.
pub open spec fn refreshed(v: TagEditorView) -> TagEditorView {
    let s = suggestions_for(v.all_tags, v.tags, v.input);
    TagEditorView { suggestions: s, selected: if s.len() == 0 { None } else { Some(0) }, ..v }
}

/// The editor and the result after a key press of `code`.
pub open spec fn tag_key(v: TagEditorView, code: KeyCode) -> (TagEditorView, HandleResult) {
    match code {
        KeyCode::Enter => (
            TagEditorView { tags: committed(v.tags, v.input), input: Seq::empty(), suggestions: Seq::empty(), selected: None, ..v },
            HandleResult::Consumed,
        ),
        KeyCode::Backspace => if v.input.len() == 0 && v.tags.len() > 0 {
            (TagEditorView { tags: v.tags.drop_last(), ..v }, HandleResult::Consumed)
        } else if v.input.len() > 0 {
            (refreshed(TagEditorView { input: v.input.drop_last(), ..v }), HandleResult::NeedsRender)
        } else {
            (v, HandleResult::Ignored)
        },
        KeyCode::Tab => if v.suggestions.len() > 0 {
            (
                TagEditorView { tags: v.tags.push(v.suggestions[0]), input: Seq::empty(), suggestions: Seq::empty(), selected: None, ..v },
                HandleResult::Consumed,
            )
        } else {
            (v, HandleResult::Ignored)
        },
        KeyCode::Up => if v.selected is Some {
            (
                TagEditorView { selected: Some(if v.selected->0 > 0 { (v.selected->0 - 1) as nat } else { 0 }), ..v },
                HandleResult::Consumed,
            )
        } else {
            (v, HandleResult::Ignored)
        },
        KeyCode::Down => if v.suggestions.len() > 0 {
            (
                TagEditorView {
                    selected: match v.selected {
                        Some(i) => Some(if i + 1 < v.suggestions.len() { i + 1 } else { (v.suggestions.len() - 1) as nat }),
                        None => None,
                    },
                    ..v
                },
                HandleResult::Consumed,
            )
        } else {
            (v, HandleResult::Ignored)
        },
        KeyCode::Char(c) => if c == ',' {
            (
                TagEditorView { tags: committed(v.tags, v.input), input: Seq::empty(), suggestions: Seq::empty(), selected: None, ..v },
                HandleResult::Consumed,
            )
        } else {
            (refreshed(TagEditorView { input: v.input.push(c), ..v }), HandleResult::NeedsRender)
        },
        _ => (v, HandleResult::Ignored),
    }
}

fn contains_string(v: &Vec<String>, s: &Vec<char>) -> (b: bool)
    ensures
        b == strings_view(v@).contains(s@),
{
    let mut i: usize = 0;
    while i < v.len()
        invariant
            i <= v@.len(),
            forall|k: int| 0 <= k < i ==> v@[k]@ != s@,
        decreases v@.len() - i,
    {
        let c = chars_of(v[i].as_str());
        if vec_chars_equal(&c, s) {
            assert(strings_view(v@)[i as int] == s@);
            return true;
        }
        i = i + 1;
    }
    assert forall|k: int| 0 <= k < strings_view(v@).len() implies strings_view(v@)[k] != s@ by {
        assert(strings_view(v@)[k] == v@[k]@);
    }
    false
}

fn vec_chars_equal(a: &Vec<char>, b: &Vec<char>) -> (r: bool)
    ensures
        r == (a@ == b@),
{
    if a.len() != b.len() {
        return false;
    }
    let mut i: usize = 0;
    while i < a.len()
        invariant
            a@.len() == b@.len(),
            i <= a@.len(),
            forall|k: int| 0 <= k < i ==> a@[k] == b@[k],
        decreases a@.len() - i,
    {
        if a[i] != b[i] {
            return false;
        }
        i = i + 1;
    }
    assert(a@ =~= b@);
    true
}

/// Tag editor.
pub struct TagEditor {
    id: ComponentId,
    tags: Vec<String>,
    input: Vec<char>,
    focused: bool,
    suggestions: Vec<String>,
    selected_suggestion: Option<usize>,
    all_tags: Vec<String>,
}

impl View for TagEditor {
    type V = TagEditorView;

    closed spec fn view(&self) -> TagEditorView {
        TagEditorView {
            id: self.id,
            tags: strings_view(self.tags@),
            input: self.input@,
            focused: self.focused,
            suggestions: strings_view(self.suggestions@),
            selected: match self.selected_suggestion {
                Some(i) => Some(i as nat),
                None => None,
            },
            all_tags: strings_view(self.all_tags@),
        }
    }
}

impl TagEditor {
    /// An editor holding `tags`, with no input and no known tags.
    pub fn new(tags: Vec<String>) -> (r: Self)
        ensures
            r@.tags == strings_view(tags@),
            r@.input == Seq::<char>::empty(),
            !r@.focused,
            r@.suggestions == Seq::<Seq<char>>::empty(),
            r@.selected is None,
            r@.all_tags == Seq::<Seq<char>>::empty(),
            r@.id.spec_value() == 0,
    {
        let r = TagEditor {
            id: ComponentId::new(0),
            tags,
            input: Vec::new(),
            focused: false,
            suggestions: Vec::new(),
            selected_suggestion: None,
            all_tags: Vec::new(),
        };
        assert(r@.suggestions =~= Seq::<Seq<char>>::empty());
        assert(r@.all_tags =~= Seq::<Seq<char>>::empty());
        r
    }

    /// Sets the known tags that suggestions are taken from.
    pub fn set_all_tags(&mut self, all_tags: Vec<String>)
        ensures
            final(self)@ == (TagEditorView { all_tags: strings_view(all_tags@), ..old(self)@ }),
    {
        self.all_tags = all_tags;
    }

    /// The tags.
    pub fn tags(&self) -> (r: &[String])
        ensures
            strings_view(r@) == self@.tags,
    {
        self.tags.as_slice()
    }

    /// The tags, consuming the editor.
    pub fn take_tags(self) -> (r: Vec<String>)
        ensures
            strings_view(r@) == self@.tags,
    {
        self.tags
    }

    /// Replaces the tags.
    pub fn set_tags(&mut self, tags: Vec<String>)
        ensures
            final(self)@ == (TagEditorView { tags: strings_view(tags@), ..old(self)@ }),
    {
        self.tags = tags;
    }

    /// The text typed so far.
    pub fn input(&self) -> (r: String)
        ensures
            r@ == self@.input,
    {
        string_from_chars(&self.input)
    }

    /// The current suggestions.
    pub fn suggestions(&self) -> (r: &[String])
        ensures
            strings_view(r@) == self@.suggestions,
    {
        self.suggestions.as_slice()
    }

    /// The index of the selected suggestion.
    pub fn selected_suggestion(&self) -> (r: Option<usize>)
        ensures
            r matches Some(i) ==> self@.selected == Some(i as nat),
            r is None ==> self@.selected is None,
    {
        self.selected_suggestion
    }

    fn update_suggestions(&mut self)
        ensures
            final(self)@ == refreshed(old(self)@),
    {
        if self.input.len() == 0 {
            self.suggestions.clear();
            self.selected_suggestion = None;
            assert(self@.suggestions =~= Seq::<Seq<char>>::empty());
            return;
        }
        let q = lowercase_chars(&self.input);
        let ghost all = strings_view(self.all_tags@);
        let ghost tags = strings_view(self.tags@);
        let mut out: Vec<String> = Vec::new();
        let mut i: usize = 0;
        assert(all.take(0) =~= Seq::<Seq<char>>::empty());
        assert(strings_view(out@) =~= Seq::<Seq<char>>::empty());
        while i < self.all_tags.len()
            invariant
                i <= self.all_tags@.len(),
                all == strings_view(self.all_tags@),
                tags == strings_view(self.tags@),
                q@ == lowercase(self.input@),
                strings_view(out@) == first_five(matching_tags(all.take(i as int), tags, q@)),
            decreases self.all_tags@.len() - i,
        {
            let t = &self.all_tags[i];
            assert(all.take(i + 1).drop_last() =~= all.take(i as int));
            assert(all.take(i + 1).last() == t@);
            let tl_s = to_lowercase(t.as_str());
            let tl = chars_of(tl_s.as_str());
            let tc = chars_of(t.as_str());
            let m = contains_chars(&tl, &q) && !contains_string(&self.tags, &tc);
            let ghost before = out@;
            let ghost mt = matching_tags(all.take(i as int), tags, q@);
            if m && out.len() < 5 {
                out.push(t.clone());
                assert(strings_view(out@) =~= strings_view(before).push(t@));
            }
            proof {
                if m && mt.len() >= 5 {
                    assert(mt.push(t@).take(5) =~= mt.take(5));
                    if mt.len() == 5 {
                        assert(mt.take(5) =~= mt);
                    }
                }
            }
            i = i + 1;
        }
        assert(all.take(i as int) =~= all);
        let has = out.len() > 0;
        self.suggestions = out;
        self.selected_suggestion = if has {
            Some(0)
        } else {
            None
        };
    }

    fn commit_input(&mut self)
        ensures
            final(self)@ == (TagEditorView {
                tags: committed(old(self)@.tags, old(self)@.input),
                input: Seq::empty(),
                suggestions: Seq::empty(),
                selected: None,
                ..old(self)@
            }),
    {
        let text = string_from_chars(&self.input);
        let tag = trim_chars(text.as_str());
        if tag.len() > 0 && !contains_string(&self.tags, &tag) {
            let ghost before = self.tags@;
            self.tags.push(string_from_chars(&tag));
            assert(strings_view(self.tags@) =~= strings_view(before).push(tag@));
        }
        self.input.clear();
        self.suggestions.clear();
        self.selected_suggestion = None;
        assert(self@.input =~= Seq::<char>::empty());
        assert(self@.suggestions =~= Seq::<Seq<char>>::empty());
    }

    /// Handles a key: Enter or a comma commits the input as a tag; Backspace
    /// deletes the last input character, or the last tag when the input is
    /// empty; Tab takes the first suggestion; Up and Down move the selection
    /// among the suggestions; other characters are typed.
    pub fn handle_key(&mut self, key: KeyEvent) -> (r: HandleResult)
        ensures
            key.kind == KeyEventKind::Release ==> r is Ignored && final(self)@ == old(self)@,
            key.kind != KeyEventKind::Release ==> (final(self)@, r) == tag_key(old(self)@, key.code),
    {
        if key.kind == KeyEventKind::Release {
            return HandleResult::Ignored;
        }
        match key.code {
            KeyCode::Enter => {
                self.commit_input();
                HandleResult::Consumed
            },
            KeyCode::Backspace => {
                if self.input.len() == 0 && self.tags.len() > 0 {
                    let ghost before = self.tags@;
                    self.tags.pop();
                    assert(strings_view(self.tags@) =~= strings_view(before).drop_last());
                    HandleResult::Consumed
                } else if self.input.len() > 0 {
                    let ghost before = self.input@;
                    self.input.pop();
                    assert(self.input@ =~= before.drop_last());
                    self.update_suggestions();
                    HandleResult::NeedsRender
                } else {
                    HandleResult::Ignored
                }
            },
            KeyCode::Tab => {
                if self.suggestions.len() > 0 {
                    let first = self.suggestions[0].clone();
                    let ghost before = self.tags@;
                    self.tags.push(first);
                    assert(strings_view(self.tags@) =~= strings_view(before).push(strings_view(self.suggestions@)[0]));
                    self.input.clear();
                    self.suggestions.clear();
                    self.selected_suggestion = None;
                    assert(self@.input =~= Seq::<char>::empty());
                    assert(self@.suggestions =~= Seq::<Seq<char>>::empty());
                    return HandleResult::Consumed;
                }
                HandleResult::Ignored
            },
            KeyCode::Up => {
                match self.selected_suggestion {
                    Some(i) => {
                        self.selected_suggestion = Some(if i > 0 { i - 1 } else { 0 });
                        HandleResult::Consumed
                    },
                    None => HandleResult::Ignored,
                }
            },
            KeyCode::Down => {
                if self.suggestions.len() > 0 {
                    let n = self.suggestions.len();
                    self.selected_suggestion = match self.selected_suggestion {
                        Some(i) => Some(if i < n - 1 { i + 1 } else { n - 1 }),
                        None => None,
                    };
                    HandleResult::Consumed
                } else {
                    HandleResult::Ignored
                }
            },
            KeyCode::Char(c) => {
                if c == ',' {
                    self.commit_input();
                    HandleResult::Consumed
                } else {
                    let ghost before = self.input@;
                    self.input.push(c);
                    self.update_suggestions();
                    HandleResult::NeedsRender
                }
            },
            _ => HandleResult::Ignored,
        }
    }

    /// The component identifier.
    pub fn id(&self) -> (r: ComponentId)
        ensures
            r == self@.id,
    {
        self.id
    }

    /// The editor can take the focus.
    pub fn can_focus(&self) -> (b: bool)
        ensures
            b,
    {
        true
    }

    /// Takes the focus.
    pub fn on_focus_gain(&mut self) -> (r: TuiResult<()>)
        ensures
            r is Ok,
            final(self)@ == (TagEditorView { focused: true, ..old(self)@ }),
    {
        self.focused = true;
        Ok(())
    }

    /// Gives up the focus and commits any pending input as a tag.
    pub fn on_focus_loss(&mut self) -> (r: TuiResult<()>)
        ensures
            r is Ok,
            final(self)@ == (TagEditorView {
                focused: false,
                tags: committed(old(self)@.tags, old(self)@.input),
                input: Seq::empty(),
                suggestions: Seq::empty(),
                selected: old(self)@.selected,
                ..old(self)@
            }),
    {
        self.focused = false;
        let keep = self.selected_suggestion;
        self.commit_input();
        self.selected_suggestion = keep;
        Ok(())
    }
}

/// Committing never adds a tag twice: a tag list without repeats keeps none.
pub proof fn law_commit_keeps_tags_distinct(tags: Seq<Seq<char>>, input: Seq<char>)
    requires
        tags.no_duplicates(),
    ensures
        committed(tags, input).no_duplicates(),
        committed(tags, input).len() <= tags.len() + 1,
{
    let t = trimmed(input);
    if t.len() > 0 && !tags.contains(t) {
        let c = tags.push(t);
        assert forall|i: int, j: int| 0 <= i < c.len() && 0 <= j < c.len() && i != j implies c[i] != c[j] by {
            if i < tags.len() && j < tags.len() {
            } else if i == tags.len() {
                assert(c[j] == tags[j]);
            } else {
                assert(c[i] == tags[i]);
            }
        }
    }
}

/// Suggestions never repeat a tag the editor already holds, and there are at most five.
pub proof fn law_suggestions_are_new_tags(all: Seq<Seq<char>>, tags: Seq<Seq<char>>, input: Seq<char>, k: int)
    requires
        0 <= k < suggestions_for(all, tags, input).len(),
    ensures
        !tags.contains(suggestions_for(all, tags, input)[k]),
        suggestions_for(all, tags, input).len() <= 5,
{
    lemma_matching_not_tags(all, tags, lowercase(input));
}

proof fn lemma_matching_not_tags(all: Seq<Seq<char>>, tags: Seq<Seq<char>>, q: Seq<char>)
    ensures
        forall|k: int| 0 <= k < matching_tags(all, tags, q).len() ==> !tags.contains(#[trigger] matching_tags(all, tags, q)[k]),
    decreases all.len(),
{
    if all.len() > 0 {
        lemma_matching_not_tags(all.drop_last(), tags, q);
        let rest = matching_tags(all.drop_last(), tags, q);
        let m = matching_tags(all, tags, q);
        assert forall|k: int| 0 <= k < m.len() implies !tags.contains(#[trigger] m[k]) by {
            if k < rest.len() {
                assert(m[k] == rest[k]);
            }
        }
    }
}

/// The first `n` tags, each in brackets and followed by a space.
pub open spec fn tag_pieces(tags: Seq<Seq<char>>, n: nat) -> Seq<Seq<char>>
    decreases n,
{
    if n == 0 {
        Seq::empty()
    } else {
        tag_pieces(tags, (n - 1) as nat) + seq!["["@ + tags[n - 1] + "]"@, " "@]
    }
}

/// The pieces the editor shows: each tag in brackets followed by a space,
/// then the input with a cursor mark while focused, or a hint when there is
/// no tag and no focus.
pub open spec fn editor_pieces(v: TagEditorView) -> Seq<Seq<char>> {
    tag_pieces(v.tags, v.tags.len()) + if v.focused {
        seq![v.input + "_"@]
    } else if v.tags.len() == 0 {
        seq!["Press Enter to add tags..."@]
    } else {
        Seq::empty()
    }
}

impl TagEditor {
    /// The pieces the editor shows, as [`editor_pieces`] says.
    pub fn display_pieces(&self) -> (r: Vec<String>)
        ensures
            lines_view(r@) == editor_pieces(self@),
    {
        let ghost tv = self@.tags;
        let mut out: Vec<String> = Vec::new();
        let mut i: usize = 0;
        while i < self.tags.len()
            invariant
                i <= self.tags@.len(),
                tv == self@.tags,
                tv.len() == self.tags@.len(),
                lines_view(out@) == tag_pieces(tv, i as nat),
            decreases self.tags@.len() - i,
        {
            let mut t = String::from_str("[");
            push_str(&mut t, self.tags[i].as_str());
            push_str(&mut t, "]");
            assert(tv[i as int] == self.tags@[i as int]@);
            let ghost before = out@;
            let ghost tt = t@;
            out.push(t);
            out.push(String::from_str(" "));
            assert(lines_view(out@) =~= lines_view(before) + seq![tt, " "@]);
            i = i + 1;
        }
        let ghost before = out@;
        if self.focused {
            let mut t = String::new();
            push_chars(&mut t, &self.input);
            push_str(&mut t, "_");
            out.push(t);
        } else if self.tags.len() == 0 {
            out.push(String::from_str("Press Enter to add tags..."));
        }
        assert(lines_view(out@) =~= editor_pieces(self@));
        out
    }
}

} // verus!
