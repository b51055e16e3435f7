//! Input events, handler results and field validation shared by the components.
//!
//! Key events are the library's own plain values; the application converts the
//! terminal backend's events into them before handing them to a component.
use vstd::prelude::*;

verus! {

/// Identifier of a component inside a screen.
#[derive(Debug, Clone, Copy, PartialEq, Eq, Structural)]
pub struct ComponentId {
    value: u64,
}

impl ComponentId {
    pub closed spec fn spec_value(self) -> u64 {
        self.value
    }

    /// Creates an identifier with the given number.
    pub fn new(value: u64) -> (r: Self)
        ensures
            r.spec_value() == value,
    {
        ComponentId { value }
    }

    /// The number of this identifier.
    pub fn value(&self) -> (r: u64)
        ensures
            r == self.spec_value(),
    {
        self.value
    }
}

/// A key of the keyboard.
#[derive(Debug, Clone, Copy, PartialEq, Eq, Structural)]
pub enum KeyCode {
    Char(char),
    Enter,
    Backspace,
    Delete,
    Left,
    Right,
    Up,
    Down,
    Home,
    End,
    PageUp,
    PageDown,
    Tab,
    BackTab,
    Esc,
    Insert,
    F(u8),
    Null,
}

/// Modifier keys held while a key was pressed.
#[derive(Debug, Clone, Copy, PartialEq, Eq, Structural)]
pub struct KeyModifiers {
    pub control: bool,
    pub shift: bool,
    pub alt: bool,
}

impl KeyModifiers {
    /// No modifier held.
    pub fn empty() -> (r: Self)
        ensures
            !r.control && !r.shift && !r.alt,
    {
        KeyModifiers { control: false, shift: false, alt: false }
    }
}

/// Whether a key went down, repeats, or went up.
#[derive(Debug, Clone, Copy, PartialEq, Eq, Structural)]
pub enum KeyEventKind {
    Press,
    Repeat,
    Release,
}

/// One keyboard event.
#[derive(Debug, Clone, Copy, PartialEq, Eq, Structural)]
pub struct KeyEvent {
    pub code: KeyCode,
    pub modifiers: KeyModifiers,
    pub kind: KeyEventKind,
}

impl KeyEvent {
    /// A key press with the given modifiers.
    pub fn new(code: KeyCode, modifiers: KeyModifiers) -> (r: Self)
        ensures
            r.code == code,
            r.modifiers == modifiers,
            r.kind == KeyEventKind::Press,
    {
        KeyEvent { code, modifiers, kind: KeyEventKind::Press }
    }
}

/// What a confirmation dialog asks the user to approve.
#[derive(Debug, Clone, PartialEq, Eq)]
pub enum ConfirmAction {
    /// Move a password to the trash.
    DeletePassword { password_id: String, password_name: String },
    /// Delete a password for good.
    PermanentDelete(String),
    /// Empty the trash.
    EmptyTrash,
    /// Delete a password group.
    DeleteGroup { group_id: String, group_name: String },
    /// Any other confirmation.
    Generic,
}

impl ConfirmAction {
    /// A copy of this action.
    pub fn duplicate(&self) -> (r: Self)
        ensures
            r == *self,
    {
        match self {
            ConfirmAction::DeletePassword { password_id, password_name } => ConfirmAction::DeletePassword {
                password_id: password_id.clone(),
                password_name: password_name.clone(),
            },
            ConfirmAction::PermanentDelete(id) => ConfirmAction::PermanentDelete(id.clone()),
            ConfirmAction::EmptyTrash => ConfirmAction::EmptyTrash,
            ConfirmAction::DeleteGroup { group_id, group_name } => ConfirmAction::DeleteGroup {
                group_id: group_id.clone(),
                group_name: group_name.clone(),
            },
            ConfirmAction::Generic => ConfirmAction::Generic,
        }
    }
}

/// A request a component hands to the application.
#[derive(Debug, Clone)]
pub enum Action {
    /// Close the current screen or dialog.
    CloseScreen,
    /// The user approved the given confirmation.
    ConfirmDialog(ConfirmAction),
    /// Ask the user to confirm the given action.
    OpenConfirmDialog(ConfirmAction),
    /// Show a short message; messages starting with a double underscore are
    /// requests the application carries out.
    ShowToast(String),
}

/// How a component dealt with an event.
#[derive(Debug, Clone)]
pub enum HandleResult {
    /// The event was handled.
    Consumed,
    /// The event was not handled; the parent may handle it.
    Ignored,
    /// The event was handled and the component must be drawn again.
    NeedsRender,
    /// The event asks the application to do something.
    Action(Action),
}

/// When a field is validated.
#[derive(Debug, Clone, Copy, PartialEq, Eq, Structural)]
pub enum ValidationTrigger {
    /// On every change.
    OnChange,
    /// When the field loses focus.
    OnBlur,
    /// When the form is submitted.
    OnSubmit,
}

/// A rule a field's value must satisfy.
#[derive(Debug, Clone, Copy, PartialEq, Eq, Structural)]
pub enum BuiltinValidator {
    /// The value must not be empty.
    Required,
    /// The value must hold at least this many characters.
    MinLength(usize),
    /// The value must hold at most this many characters.
    MaxLength(usize),
}

/// Whether `value` satisfies the rule `v`.
pub open spec fn validator_accepts(v: BuiltinValidator, value: Seq<char>) -> bool {
    match v {
        BuiltinValidator::Required => value.len() > 0,
        BuiltinValidator::MinLength(n) => value.len() >= n,
        BuiltinValidator::MaxLength(n) => value.len() <= n,
    }
}

/// Number of rules among `vs` that reject `value`.
pub open spec fn count_rejecting(vs: Seq<BuiltinValidator>, value: Seq<char>) -> nat
    decreases vs.len(),
{
    if vs.len() == 0 {
        0
    } else {
        count_rejecting(vs.drop_last(), value) + if validator_accepts(vs.last(), value) {
            0nat
        } else {
            1nat
        }
    }
}

/// The message a rule gives when it rejects a value.
pub open spec fn rule_message(v: BuiltinValidator) -> Seq<char> {
    match v {
        BuiltinValidator::Required => "This field is required"@,
        BuiltinValidator::MinLength(_) => "Value is too short"@,
        BuiltinValidator::MaxLength(_) => "Value is too long"@,
    }
}

/// The messages of the rules among `vs` that reject `value`, in the rules' order.
pub open spec fn rejection_messages(vs: Seq<BuiltinValidator>, value: Seq<char>) -> Seq<Seq<char>>
    decreases vs.len(),
{
    if vs.len() == 0 {
        Seq::empty()
    } else {
        rejection_messages(vs.drop_last(), value) + if validator_accepts(vs.last(), value) {
            Seq::<Seq<char>>::empty()
        } else {
            seq![rule_message(vs.last())]
        }
    }
}

/// Outcome of validating a value.
#[derive(Debug, Clone)]
pub struct ValidationResult {
    /// Whether every rule accepted the value.
    pub is_valid: bool,
    /// One message per rule that rejected the value.
    pub errors: Vec<String>,
}

impl ValidationResult {
    /// The error messages, each by its characters.
    pub open spec fn messages(&self) -> Seq<Seq<char>> {
        self.errors@.map_values(|e: String| e@)
    }

    /// This is the outcome of checking `value` against `rules`: valid exactly
    /// when no rule rejects it, with one message per rejecting rule, in order.
    pub open spec fn outcome_of(&self, rules: Seq<BuiltinValidator>, value: Seq<char>) -> bool {
        &&& self.is_valid == (rejection_messages(rules, value).len() == 0)
        &&& self.messages() == rejection_messages(rules, value)
        &&& self.errors@.len() == count_rejecting(rules, value)
    }

    /// A result with no error.
    pub fn valid() -> (r: Self)
        ensures
            r.is_valid,
            r.errors@.len() == 0,
    {
        ValidationResult { is_valid: true, errors: Vec::new() }
    }

    /// Whether any rule rejected the value.
    pub fn has_errors(&self) -> (b: bool)
        ensures
            b == (self.errors@.len() > 0),
    {
        self.errors.len() > 0
    }

    /// The first error message, if any.
    pub fn first_error(&self) -> (r: Option<&String>)
        ensures
            self.errors@.len() == 0 ==> r is None,
            self.errors@.len() > 0 ==> r == Some(&self.errors@[0]),
    {
        if self.errors.len() > 0 {
            Some(&self.errors[0])
        } else {
            None
        }
    }
}

/// The rules of one field and when to apply them.
#[derive(Debug, Clone)]
pub struct FieldValidation {
    /// The rules, applied in order.
    pub validators: Vec<BuiltinValidator>,
    /// When the field is validated.
    pub trigger: ValidationTrigger,
}

impl FieldValidation {
    pub open spec fn rules(&self) -> Seq<BuiltinValidator> {
        self.validators@
    }

    /// No rule, validated on change.
    pub fn new() -> (r: Self)
        ensures
            r.rules() == Seq::<BuiltinValidator>::empty(),
            r.trigger == ValidationTrigger::OnChange,
    {
        FieldValidation { validators: Vec::new(), trigger: ValidationTrigger::OnChange }
    }

    /// Adds a rule.
    pub fn with_validator(self, v: BuiltinValidator) -> (r: Self)
        ensures
            r.rules() == self.rules().push(v),
            r.trigger == self.trigger,
    {
        let mut s = self;
        s.validators.push(v);
        s
    }

    /// Sets when the field is validated.
    pub fn with_trigger(self, t: ValidationTrigger) -> (r: Self)
        ensures
            r.rules() == self.rules(),
            r.trigger == t,
    {
        let mut s = self;
        s.trigger = t;
        s
    }

    /// Checks `value` against every rule, in order.
    pub fn validate_chars(&self, value: &Vec<char>) -> (r: ValidationResult)
        ensures
            r.outcome_of(self.rules(), value@),
            r.is_valid == (count_rejecting(self.rules(), value@) == 0),
            r.errors@.len() == count_rejecting(self.rules(), value@),
    {
        let mut errors: Vec<String> = Vec::new();
        let mut i: usize = 0;
        while i < self.validators.len()
            invariant
                i <= self.validators@.len(),
                errors@.len() == count_rejecting(self.validators@.take(i as int), value@),
                errors@.map_values(|e: String| e@) == rejection_messages(self.validators@.take(i as int), value@),
            decreases self.validators@.len() - i,
        {
            assert(self.validators@.take(i + 1).drop_last() =~= self.validators@.take(i as int));
            let ghost before = errors@;
            let v = self.validators[i];
            match v {
                BuiltinValidator::Required => {
                    if value.len() == 0 {
                        errors.push(String::from_str("This field is required"));
                    }
                },
                BuiltinValidator::MinLength(n) => {
                    if value.len() < n {
                        errors.push(String::from_str("Value is too short"));
                    }
                },
                BuiltinValidator::MaxLength(n) => {
                    if value.len() > n {
                        errors.push(String::from_str("Value is too long"));
                    }
                },
            }
            proof {
                let m = rejection_messages(self.validators@.take(i as int), value@);
                if errors@.len() == before.len() {
                    assert(errors@ == before);
                    assert(rejection_messages(self.validators@.take(i + 1), value@) =~= m);
                } else {
                    assert(errors@.map_values(|e: String| e@) =~= before.map_values(|e: String| e@).push(
                        errors@.last()@));
                    assert(rejection_messages(self.validators@.take(i + 1), value@) =~= m.push(
                        rule_message(v)));
                }
            }
            i = i + 1;
        }
        assert(self.validators@.take(i as int) =~= self.validators@);
        proof {
            lemma_messages_count(self.validators@, value@);
        }
        ValidationResult { is_valid: errors.len() == 0, errors }
    }
}

/// There is one rejection message per rejecting rule.
pub proof fn lemma_messages_count(vs: Seq<BuiltinValidator>, value: Seq<char>)
    ensures
        rejection_messages(vs, value).len() == count_rejecting(vs, value),
    decreases vs.len(),
{
    if vs.len() > 0 {
        lemma_messages_count(vs.drop_last(), value);
    }
}

} // verus!
