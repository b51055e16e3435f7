//! Drop-down selection with keyboard navigation that skips disabled options.
use vstd::prelude::*;
use crate::text::chars_of;
use crate::tui::app_types::TuiResult;
use crate::tui::traits::{ComponentId, FieldValidation, HandleResult, KeyCode, KeyEvent, KeyEventKind,
    ValidationResult, ValidationTrigger};

verus! {

/// One option of a selection.
#[derive(Debug, Clone)]
pub struct SelectItem {
    /// Text shown.
    pub label: String,
    /// Value reported when selected.
    pub value: String,
    /// Whether the option cannot be chosen.
    pub disabled: bool,
}

impl SelectItem {
    /// An enabled option.
    pub fn new(label: &str, value: &str) -> (r: Self)
        ensures
            r.label@ == label@,
            r.value@ == value@,
            !r.disabled,
    {
        SelectItem { label: label.to_owned(), value: value.to_owned(), disabled: false }
    }

    /// Sets whether the option is disabled.
    pub fn with_disabled(self, disabled: bool) -> (r: Self)
        ensures
            r.label == self.label,
            r.value == self.value,
            r.disabled == disabled,
    {
        let mut s = self;
        s.disabled = disabled;
        s
    }
}

/// The nearest enabled option before index `bound`.
pub open spec fn last_enabled_below(items: Seq<SelectItem>, bound: int) -> Option<int>
    decreases bound,
{
    if bound <= 0 {
        None
    } else if !items[bound - 1].disabled {
        Some(bound - 1)
    } else {
        last_enabled_below(items, bound - 1)
    }
}

/// The nearest enabled option at or after index `start`.
pub open spec fn first_enabled_from(items: Seq<SelectItem>, start: int) -> Option<int>
    decreases items.len() - start,
{
    if start < 0 || start >= items.len() {
        None
    } else if !items[start].disabled {
        Some(start)
    } else {
        first_enabled_from(items, start + 1)
    }
}

/// The selection after moving up: the nearest enabled option above the
/// selected one, or the last enabled option when nothing is selected.
pub open spec fn select_after_up(items: Seq<SelectItem>, sel: Option<usize>) -> Option<usize> {
    let target = match sel {
        Some(cur) => last_enabled_below(items, cur as int),
        None => last_enabled_below(items, items.len() as int),
    };
    match target {
        Some(j) => Some(j as usize),
        None => sel,
    }
}

/// The selection after moving down: the nearest enabled option below the
/// selected one, or the first enabled option when nothing is selected.
pub open spec fn select_after_down(items: Seq<SelectItem>, sel: Option<usize>) -> Option<usize> {
    let target = match sel {
        Some(cur) => first_enabled_from(items, cur + 1),
        None => first_enabled_from(items, 0),
    };
    match target {
        Some(j) => Some(j as usize),
        None => sel,
    }
}

/// The first option at or after `start` whose value is `value`.
pub open spec fn first_with_value(items: Seq<SelectItem>, value: Seq<char>, start: int) -> Option<int>
    decreases items.len() - start,
{
    if start < 0 || start >= items.len() {
        None
    } else if items[start].value@ == value {
        Some(start)
    } else {
        first_with_value(items, value, start + 1)
    }
}

proof fn lemma_first_with_value(items: Seq<SelectItem>, value: Seq<char>, start: int)
    ensures
        first_with_value(items, value, start) matches Some(j) ==> start <= j < items.len()
            && items[j].value@ == value,
    decreases items.len() - start,
{
    if 0 <= start < items.len() && items[start].value@ != value {
        lemma_first_with_value(items, value, start + 1);
    }
}

/// A selection is empty or names an enabled option.
pub open spec fn selection_ok(items: Seq<SelectItem>, sel: Option<usize>) -> bool {
    sel matches Some(i) ==> i < items.len() && !items[i as int].disabled
}

proof fn lemma_last_enabled_below(items: Seq<SelectItem>, bound: int)
    requires
        bound <= items.len(),
    ensures
        last_enabled_below(items, bound) matches Some(j) ==> 0 <= j < bound && !items[j].disabled,
    decreases bound,
{
    if bound > 0 && items[bound - 1].disabled {
        lemma_last_enabled_below(items, bound - 1);
    }
}

proof fn lemma_first_enabled_from(items: Seq<SelectItem>, start: int)
    ensures
        first_enabled_from(items, start) matches Some(j) ==> start <= j < items.len() && !items[j].disabled,
    decreases items.len() - start,
{
    if 0 <= start < items.len() && items[start].disabled {
        lemma_first_enabled_from(items, start + 1);
    }
}

/// Drop-down selection.
pub struct Select {
    id: ComponentId,
    items: Vec<SelectItem>,
    selected_index: Option<usize>,
    expanded: bool,
    focused: bool,
    validation: Option<FieldValidation>,
    validation_result: Option<ValidationResult>,
    title: String,
}

impl Select {
    pub closed spec fn items_view(&self) -> Seq<SelectItem> {
        self.items@
    }

    pub closed spec fn selected_view(&self) -> Option<usize> {
        self.selected_index
    }

    pub closed spec fn expanded_view(&self) -> bool {
        self.expanded
    }

    pub closed spec fn focused_view(&self) -> bool {
        self.focused
    }

    pub closed spec fn validation_view(&self) -> Option<FieldValidation> {
        self.validation
    }

    pub closed spec fn validation_result_view(&self) -> Option<ValidationResult> {
        self.validation_result
    }

    pub closed spec fn title_view(&self) -> Seq<char> {
        self.title@
    }

    pub closed spec fn id_view(&self) -> ComponentId {
        self.id
    }

    /// The selection is empty or names an enabled option.
    pub closed spec fn wf(&self) -> bool {
        selection_ok(self.items@, self.selected_index)
    }

    /// The value of the selected option, or the empty text.
    pub open spec fn selected_value_spec(&self) -> Seq<char> {
        match self.selected_view() {
            Some(i) => self.items_view()[i as int].value@,
            None => Seq::empty(),
        }
    }

    /// A selection with nothing selected, collapsed.
    pub fn new(items: Vec<SelectItem>) -> (r: Self)
        ensures
            r.wf(),
            r.items_view() == items@,
            r.selected_view() is None,
            !r.expanded_view(),
            !r.focused_view(),
            r.validation_view() is None,
            r.validation_result_view() matches Some(v) && v.is_valid && v.errors@.len() == 0,
            r.title_view() == Seq::<char>::empty(),
            r.id_view().spec_value() == 0,
    {
        Select {
            id: ComponentId::new(0),
            items,
            selected_index: None,
            expanded: false,
            focused: false,
            validation: None,
            validation_result: Some(ValidationResult::valid()),
            title: String::new(),
        }
    }

    /// Sets the component identifier.
    pub fn with_id(self, id: ComponentId) -> (r: Self)
        ensures
            r.id_view() == id,
            r.wf() == self.wf(),
            r.items_view() == self.items_view(),
            r.selected_view() == self.selected_view(),
            r.expanded_view() == self.expanded_view(),
            r.focused_view() == self.focused_view(),
            r.validation_view() == self.validation_view(),
            r.validation_result_view() == self.validation_result_view(),
            r.title_view() == self.title_view(),
    {
        let mut s = self;
        s.id = id;
        s
    }

    /// Sets the border title.
    pub fn with_title(self, title: &str) -> (r: Self)
        ensures
            r.title_view() == title@,
            r.wf() == self.wf(),
            r.id_view() == self.id_view(),
            r.items_view() == self.items_view(),
            r.selected_view() == self.selected_view(),
            r.expanded_view() == self.expanded_view(),
            r.focused_view() == self.focused_view(),
            r.validation_view() == self.validation_view(),
            r.validation_result_view() == self.validation_result_view(),
    {
        let mut s = self;
        s.title = title.to_owned();
        s
    }

    /// Sets the validation rules.
    pub fn with_validation(self, validation: FieldValidation) -> (r: Self)
        ensures
            r.validation_view() == Some(validation),
            r.wf() == self.wf(),
            r.id_view() == self.id_view(),
            r.items_view() == self.items_view(),
            r.selected_view() == self.selected_view(),
            r.expanded_view() == self.expanded_view(),
            r.focused_view() == self.focused_view(),
            r.validation_result_view() == self.validation_result_view(),
            r.title_view() == self.title_view(),
    {
        let mut s = self;
        s.validation = Some(validation);
        s
    }

    /// The options.
    pub fn items(&self) -> (r: &Vec<SelectItem>)
        ensures
            r@ == self.items_view(),
    {
        &self.items
    }

    /// The index of the selected option.
    pub fn selected_index(&self) -> (r: Option<usize>)
        ensures
            r == self.selected_view(),
    {
        self.selected_index
    }

    /// Whether the option list is open.
    pub fn is_expanded(&self) -> (b: bool)
        ensures
            b == self.expanded_view(),
    {
        self.expanded
    }

    /// Whether the selection has the focus.
    pub fn is_focused(&self) -> (b: bool)
        ensures
            b == self.focused_view(),
    {
        self.focused
    }

    /// The border title.
    pub fn title(&self) -> (r: &str)
        ensures
            r@ == self.title_view(),
    {
        self.title.as_str()
    }

    /// The outcome of the last validation.
    pub fn validation_result(&self) -> (r: &Option<ValidationResult>)
        ensures
            *r == self.validation_result_view(),
    {
        &self.validation_result
    }

    /// The value of the selected option.
    pub fn selected_value(&self) -> (r: Option<&str>)
        requires
            self.wf(),
        ensures
            self.selected_view() is None ==> r is None,
            self.selected_view() matches Some(i) ==> r matches Some(v) && v@ == self.items_view()[i as int].value@,
    {
        match self.selected_index {
            Some(i) => Some(self.items[i].value.as_str()),
            None => None,
        }
    }

    /// The label of the selected option.
    pub fn selected_label(&self) -> (r: Option<&str>)
        requires
            self.wf(),
        ensures
            self.selected_view() is None ==> r is None,
            self.selected_view() matches Some(i) ==> r matches Some(v) && v@ == self.items_view()[i as int].label@,
    {
        match self.selected_index {
            Some(i) => Some(self.items[i].label.as_str()),
            None => None,
        }
    }

    /// Selects the option at `index` when it exists and is enabled.
    pub fn set_selected_by_index(&mut self, index: usize)
        requires
            old(self).wf(),
        ensures
            final(self).wf(),
            final(self).selected_view() == if index < old(self).items_view().len()
                && !old(self).items_view()[index as int].disabled {
                Some(index)
            } else {
                old(self).selected_view()
            },
            final(self).items_view() == old(self).items_view(),
            final(self).expanded_view() == old(self).expanded_view(),
            final(self).focused_view() == old(self).focused_view(),
            final(self).validation_view() == old(self).validation_view(),
            final(self).validation_result_view() == old(self).validation_result_view(),
            final(self).title_view() == old(self).title_view(),
            final(self).id_view() == old(self).id_view(),
    {
        if index < self.items.len() && !self.items[index].disabled {
            self.selected_index = Some(index);
        }
    }

    /// Selects the first option with the given value when it is enabled.
    pub fn set_selected_by_value(&mut self, value: &str)
        requires
            old(self).wf(),
        ensures
            final(self).wf(),
            final(self).selected_view() == match first_with_value(old(self).items_view(), value@, 0) {
                Some(j) => if !old(self).items_view()[j].disabled {
                    Some(j as usize)
                } else {
                    old(self).selected_view()
                },
                None => old(self).selected_view(),
            },
            final(self).items_view() == old(self).items_view(),
            final(self).expanded_view() == old(self).expanded_view(),
            final(self).focused_view() == old(self).focused_view(),
            final(self).validation_view() == old(self).validation_view(),
            final(self).validation_result_view() == old(self).validation_result_view(),
            final(self).title_view() == old(self).title_view(),
            final(self).id_view() == old(self).id_view(),
    {
        let target = chars_of(value);
        let ghost items = self.items@;
        let mut i: usize = 0;
        let mut found: Option<usize> = None;
        while i < self.items.len()
            invariant_except_break
                found is None,
            invariant
                items == self.items@,
                target@ == value@,
                first_with_value(items, value@, 0) == first_with_value(items, value@, i as int),
            ensures
                found is None ==> first_with_value(items, value@, 0) is None,
                found matches Some(j) ==> first_with_value(items, value@, 0) == Some(j as int),
            decreases items.len() - i,
        {
            let v = chars_of(self.items[i].value.as_str());
            if vec_chars_eq(&v, &target) {
                found = Some(i);
                break;
            }
            i = i + 1;
        }
        proof {
            lemma_first_with_value(items, value@, 0);
        }
        if let Some(j) = found {
            if !self.items[j].disabled {
                self.selected_index = Some(j);
            }
        }
    }

    /// Moves the selection to the nearest enabled option above, or to the last
    /// enabled option when nothing is selected.
    pub fn move_up(&mut self)
        requires
            old(self).wf(),
        ensures
            final(self).wf(),
            final(self).selected_view() == select_after_up(old(self).items_view(), old(self).selected_view()),
            final(self).items_view() == old(self).items_view(),
            final(self).expanded_view() == old(self).expanded_view(),
            final(self).focused_view() == old(self).focused_view(),
            final(self).validation_view() == old(self).validation_view(),
            final(self).validation_result_view() == old(self).validation_result_view(),
            final(self).title_view() == old(self).title_view(),
            final(self).id_view() == old(self).id_view(),
    {
        let ghost items = self.items@;
        let start = match self.selected_index {
            Some(cur) => cur,
            None => self.items.len(),
        };
        let mut k: usize = start;
        let mut found: Option<usize> = None;
        while k > 0
            invariant_except_break
                found is None,
            invariant
                k <= start <= items.len(),
                items == self.items@,
                last_enabled_below(items, start as int) == last_enabled_below(items, k as int),
            ensures
                found is None ==> last_enabled_below(items, start as int) is None,
                found matches Some(j) ==> last_enabled_below(items, start as int) == Some(j as int),
            decreases k,
        {
            if !self.items[k - 1].disabled {
                found = Some(k - 1);
                break;
            }
            k = k - 1;
        }
        proof {
            lemma_last_enabled_below(items, start as int);
        }
        if let Some(j) = found {
            self.selected_index = Some(j);
        }
    }

    /// Moves the selection to the nearest enabled option below, or to the
    /// first enabled option when nothing is selected.
    pub fn move_down(&mut self)
        requires
            old(self).wf(),
        ensures
            final(self).wf(),
            final(self).selected_view() == select_after_down(old(self).items_view(), old(self).selected_view()),
            final(self).items_view() == old(self).items_view(),
            final(self).expanded_view() == old(self).expanded_view(),
            final(self).focused_view() == old(self).focused_view(),
            final(self).validation_view() == old(self).validation_view(),
            final(self).validation_result_view() == old(self).validation_result_view(),
            final(self).title_view() == old(self).title_view(),
            final(self).id_view() == old(self).id_view(),
    {
        let ghost items = self.items@;
        let n = self.items.len();
        let start = match self.selected_index {
            Some(cur) => {
                assert(cur < n);
                cur + 1
            },
            None => 0,
        };
        let mut k: usize = start;
        let mut found: Option<usize> = None;
        while k < self.items.len()
            invariant_except_break
                found is None,
            invariant
                start <= k,
                items == self.items@,
                first_enabled_from(items, start as int) == first_enabled_from(items, k as int),
            ensures
                found is None ==> first_enabled_from(items, start as int) is None,
                found matches Some(j) ==> first_enabled_from(items, start as int) == Some(j as int),
            decreases items.len() - k,
        {
            if !self.items[k].disabled {
                found = Some(k);
                break;
            }
            k = k + 1;
        }
        proof {
            lemma_first_enabled_from(items, start as int);
        }
        if let Some(j) = found {
            self.selected_index = Some(j);
        }
    }

    /// Checks the selected value (the empty text when nothing is selected)
    /// against the validation rules; valid when there are none.
    pub fn validate(&self) -> (r: ValidationResult)
        requires
            self.wf(),
        ensures
            self.validation_view() is None ==> r.is_valid && r.errors@.len() == 0,
            self.validation_view() matches Some(v) ==> r.outcome_of(v.rules(), self.selected_value_spec()),
    {
        match &self.validation {
            Some(v) => {
                let value = match self.selected_index {
                    Some(i) => chars_of(self.items[i].value.as_str()),
                    None => Vec::new(),
                };
                v.validate_chars(&value)
            },
            None => ValidationResult::valid(),
        }
    }

    /// The text shown in the closed selection: the selected label, or a hint.
    pub fn selected_text(&self) -> (r: String)
        requires
            self.wf(),
        ensures
            self.selected_view() matches Some(i) ==> r@ == self.items_view()[i as int].label@,
            self.selected_view() is None && self.items_view().len() == 0 ==> r@ == "无选项"@,
            self.selected_view() is None && self.items_view().len() > 0 ==> r@ == "请选择..."@,
    {
        match self.selected_index {
            Some(i) => self.items[i].label.clone(),
            None => {
                if self.items.len() == 0 {
                    "无选项".to_owned()
                } else {
                    "请选择...".to_owned()
                }
            },
        }
    }

    /// Drops the selection.
    pub fn clear_selection(&mut self)
        ensures
            final(self).wf(),
            final(self).selected_view() is None,
            final(self).items_view() == old(self).items_view(),
            final(self).expanded_view() == old(self).expanded_view(),
            final(self).focused_view() == old(self).focused_view(),
            final(self).validation_view() == old(self).validation_view(),
            final(self).validation_result_view() == old(self).validation_result_view(),
            final(self).title_view() == old(self).title_view(),
            final(self).id_view() == old(self).id_view(),
    {
        self.selected_index = None;
    }
}

impl Select {
    /// Handles a key event: Enter and Space open or close the list, Up and
    /// Down move the selection, Esc closes the list, Tab closes it and leaves
    /// the key to the parent.
    pub fn handle_key(&mut self, key: KeyEvent) -> (r: HandleResult)
        requires
            old(self).wf(),
        ensures
            final(self).wf(),
            final(self).items_view() == old(self).items_view(),
            final(self).focused_view() == old(self).focused_view(),
            final(self).validation_view() == old(self).validation_view(),
            final(self).validation_result_view() == old(self).validation_result_view(),
            final(self).title_view() == old(self).title_view(),
            final(self).id_view() == old(self).id_view(),
            key.kind == KeyEventKind::Release ==> r is Ignored && final(self).selected_view() == old(self).selected_view()
                && final(self).expanded_view() == old(self).expanded_view(),
            key.kind != KeyEventKind::Release ==> match key.code {
                KeyCode::Enter | KeyCode::Char(' ') => r is Consumed && final(self).expanded_view() == !old(self).expanded_view()
                    && final(self).selected_view() == old(self).selected_view(),
                KeyCode::Up => r is Consumed && final(self).expanded_view() == old(self).expanded_view()
                    && final(self).selected_view() == select_after_up(old(self).items_view(), old(self).selected_view()),
                KeyCode::Down => r is Consumed && final(self).expanded_view() == old(self).expanded_view()
                    && final(self).selected_view() == select_after_down(old(self).items_view(), old(self).selected_view()),
                KeyCode::Esc => r is Consumed && !final(self).expanded_view()
                    && final(self).selected_view() == old(self).selected_view(),
                KeyCode::Tab => r is Ignored && !final(self).expanded_view()
                    && final(self).selected_view() == old(self).selected_view(),
                _ => r is Ignored && final(self).expanded_view() == old(self).expanded_view()
                    && final(self).selected_view() == old(self).selected_view(),
            },
    {
        if key.kind == KeyEventKind::Release {
            return HandleResult::Ignored;
        }
        match key.code {
            KeyCode::Enter | KeyCode::Char(' ') => {
                self.expanded = !self.expanded;
                HandleResult::Consumed
            },
            KeyCode::Up => {
                self.move_up();
                HandleResult::Consumed
            },
            KeyCode::Down => {
                self.move_down();
                HandleResult::Consumed
            },
            KeyCode::Esc => {
                self.expanded = false;
                HandleResult::Consumed
            },
            KeyCode::Tab => {
                self.expanded = false;
                HandleResult::Ignored
            },
            _ => HandleResult::Ignored,
        }
    }

    /// The component identifier.
    pub fn id(&self) -> (r: ComponentId)
        ensures
            r == self.id_view(),
    {
        self.id
    }

    /// A selection can always take the focus.
    pub fn can_focus(&self) -> (b: bool)
        ensures
            b,
    {
        true
    }

    /// Whether `r` is what `validate` gives for the current selection.
    pub open spec fn validate_spec_ok(&self, r: ValidationResult) -> bool {
        match self.validation_view() {
            None => r.is_valid && r.errors@.len() == 0,
            Some(v) => r.outcome_of(v.rules(), self.selected_value_spec()),
        }
    }

    /// Takes the focus and, when there are rules, validates the selection.
    pub fn on_focus_gain(&mut self) -> (r: TuiResult<()>)
        requires
            old(self).wf(),
        ensures
            r is Ok,
            final(self).wf(),
            final(self).focused_view(),
            final(self).selected_view() == old(self).selected_view(),
            final(self).expanded_view() == old(self).expanded_view(),
            final(self).items_view() == old(self).items_view(),
            old(self).validation_view() is Some ==> (final(self).validation_result_view() matches Some(res)
                && old(self).validate_spec_ok(res)),
            old(self).validation_view() is None ==> final(self).validation_result_view() == old(self).validation_result_view(),
            final(self).validation_view() == old(self).validation_view(),
            final(self).title_view() == old(self).title_view(),
            final(self).id_view() == old(self).id_view(),
    {
        self.focused = true;
        if self.validation.is_some() {
            let v = self.validate();
            self.validation_result = Some(v);
        }
        Ok(())
    }

    /// Gives up the focus, closes the list and validates when the rules ask
    /// for it on blur.
    pub fn on_focus_loss(&mut self) -> (r: TuiResult<()>)
        requires
            old(self).wf(),
        ensures
            r is Ok,
            final(self).wf(),
            !final(self).focused_view(),
            !final(self).expanded_view(),
            final(self).selected_view() == old(self).selected_view(),
            final(self).items_view() == old(self).items_view(),
            (old(self).validation_view() matches Some(v) && v.trigger == ValidationTrigger::OnBlur)
                ==> (final(self).validation_result_view() matches Some(res) && old(self).validate_spec_ok(res)),
            !(old(self).validation_view() matches Some(v) && v.trigger == ValidationTrigger::OnBlur)
                ==> final(self).validation_result_view() == old(self).validation_result_view(),
            final(self).validation_view() == old(self).validation_view(),
            final(self).title_view() == old(self).title_view(),
            final(self).id_view() == old(self).id_view(),
    {
        self.focused = false;
        self.expanded = false;
        let on_blur = match &self.validation {
            Some(v) => v.trigger == ValidationTrigger::OnBlur,
            None => false,
        };
        if on_blur {
            let v = self.validate();
            self.validation_result = Some(v);
        }
        Ok(())
    }

    /// Validates the selection when there are rules.
    pub fn on_mount(&mut self) -> (r: TuiResult<()>)
        requires
            old(self).wf(),
        ensures
            r is Ok,
            final(self).wf(),
            final(self).focused_view() == old(self).focused_view(),
            final(self).selected_view() == old(self).selected_view(),
            final(self).expanded_view() == old(self).expanded_view(),
            final(self).items_view() == old(self).items_view(),
            old(self).validation_view() is Some ==> (final(self).validation_result_view() matches Some(res)
                && old(self).validate_spec_ok(res)),
            old(self).validation_view() is None ==> final(self).validation_result_view() == old(self).validation_result_view(),
            final(self).validation_view() == old(self).validation_view(),
            final(self).title_view() == old(self).title_view(),
            final(self).id_view() == old(self).id_view(),
    {
        if self.validation.is_some() {
            let v = self.validate();
            self.validation_result = Some(v);
        }
        Ok(())
    }
}

impl Default for Select {
    fn default() -> (r: Self)
        ensures
            r.wf(),
            r.items_view() == Seq::<SelectItem>::empty(),
            r.selected_view() is None,
    {
        Select::new(Vec::new())
    }
}

/// Moving up or down never leaves the selection on a disabled or missing
/// option: a selection that is empty or names an enabled option stays so.
pub proof fn law_select_navigation_keeps_selection_enabled(items: Seq<SelectItem>, sel: Option<usize>)
    requires
        selection_ok(items, sel),
        items.len() <= usize::MAX,
    ensures
        selection_ok(items, select_after_up(items, sel)),
        selection_ok(items, select_after_down(items, sel)),
{
    match sel {
        Some(cur) => {
            lemma_last_enabled_below(items, cur as int);
            lemma_first_enabled_from(items, cur + 1);
        },
        None => {
            lemma_last_enabled_below(items, items.len() as int);
            lemma_first_enabled_from(items, 0);
        },
    }
}

/// Whether two character vectors hold the same characters.
pub fn vec_chars_eq(a: &Vec<char>, b: &Vec<char>) -> (r: bool)
    ensures
        r == (a@ == b@),
{
    if a.len() != b.len() {
        return false;
    }
    let mut i: usize = 0;
    while i < a.len()
        invariant
            a@.len() == b@.len(),
            i <= a@.len(),
            forall|k: int| 0 <= k < i ==> a@[k] == b@[k],
        decreases a@.len() - i,
    {
        if a[i] != b[i] {
            return false;
        }
        i = i + 1;
    }
    assert(a@ =~= b@);
    true
}

} // verus!
