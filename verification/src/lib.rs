//! Verified core of a local-first password manager's terminal interface and
//! synchronization: the command console and its slash commands, health
//! reports, text components, selection and tree navigation, dialogs,
//! signals between components and the application, configuration, conflict
//! detection and sync record conversion.
use vstd::prelude::*;

pub mod error;
pub mod sync;
pub mod text;
pub mod tui;

pub use tui::app_types::{TuiError, TuiResult};
pub use tui::components::select::{Select, SelectItem};
pub use tui::components::text_area::TextArea;
pub use tui::components::text_input::TextInput;
pub use tui::traits::{
    Action, BuiltinValidator, ComponentId, ConfirmAction, FieldValidation, HandleResult, KeyCode, KeyEvent,
    KeyEventKind, KeyModifiers, ValidationResult, ValidationTrigger,
};

verus! {

} // verus!
