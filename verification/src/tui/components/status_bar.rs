//! Status bar at the bottom of the screen: a message and shortcut hints.
use vstd::prelude::*;
use vstd::string::StringExecFns;
use crate::text::push_str;
use crate::tui::commands::joined;
use crate::tui::traits::{ComponentId, HandleResult, KeyEvent};

verus! {

/// Kind of a status message.
#[derive(Debug, Clone, Copy, PartialEq, Eq, Structural)]
pub enum StatusMessageType {
    Info,
    Success,
    Warning,
    Error,
}

impl Default for StatusMessageType {
    fn default() -> (r: Self)
        ensures
            r == StatusMessageType::Info,
    {
        StatusMessageType::Info
    }
}

/// Model of a status bar.
pub struct StatusBarView {
    pub id: ComponentId,
    pub message: Seq<char>,
    pub message_type: StatusMessageType,
    pub shortcuts: Seq<(Seq<char>, Seq<char>)>,
}

/// Status bar: a message of some kind and a list of (key, description) hints.
pub struct StatusBar {
    id: ComponentId,
    message: String,
    message_type: StatusMessageType,
    shortcuts: Vec<(String, String)>,
}

impl View for StatusBar {
    type V = StatusBarView;

    closed spec fn view(&self) -> StatusBarView {
        StatusBarView {
            id: self.id,
            message: self.message@,
            message_type: self.message_type,
            shortcuts: self.shortcuts@.map_values(|p: (String, String)| (p.0@, p.1@)),
        }
    }
}

/// The hint of one shortcut: the key in brackets, then its description.
pub open spec fn hint_text(p: (Seq<char>, Seq<char>)) -> Seq<char> {
    "["@ + p.0 + "]"@ + p.1
}

/// The hints of the shortcuts, separated by spaces.
pub open spec fn hints_line(sc: Seq<(Seq<char>, Seq<char>)>) -> Seq<char> {
    joined(sc.map_values(|p: (Seq<char>, Seq<char>)| hint_text(p)), " "@)
}

impl StatusBar {
    /// The shortcut hints as the right side of the bar shows them.
    pub fn shortcuts_text(&self) -> (r: String)
        ensures
            r@ == hints_line(self@.shortcuts),
    {
        let ghost sv = self@.shortcuts;
        let ghost hs = sv.map_values(|p: (Seq<char>, Seq<char>)| hint_text(p));
        let mut s = String::new();
        let mut i: usize = 0;
        while i < self.shortcuts.len()
            invariant
                i <= self.shortcuts@.len(),
                sv == self@.shortcuts,
                hs == sv.map_values(|p: (Seq<char>, Seq<char>)| hint_text(p)),
                s@ == joined(hs.take(i as int), " "@),
            decreases self.shortcuts@.len() - i,
        {
            assert(hs.take(i + 1).drop_last() =~= hs.take(i as int));
            assert(sv[i as int] == (self.shortcuts@[i as int].0@, self.shortcuts@[i as int].1@));
            assert(hs.take(i + 1).last() == hint_text(sv[i as int]));
            if i > 0 {
                push_str(&mut s, " ");
            }
            push_str(&mut s, "[");
            push_str(&mut s, self.shortcuts[i].0.as_str());
            push_str(&mut s, "]");
            push_str(&mut s, self.shortcuts[i].1.as_str());
            proof {
                if i == 0 {
                    assert(hs.take(1)[0] == hint_text(sv[0]));
                    assert(joined(hs.take(1), " "@) == hs.take(1)[0]);
                    assert(s@ =~= hint_text(sv[0]));
                } else {
                    assert(s@ =~= joined(hs.take(i as int), " "@) + " "@ + hint_text(sv[i as int]));
                }
            }
            i = i + 1;
        }
        assert(hs.take(i as int) =~= hs);
        s
    }

    /// A bar showing `message` as information, without hints.
    pub fn new(message: &str) -> (r: Self)
        ensures
            r@.message == message@,
            r@.message_type == StatusMessageType::Info,
            r@.shortcuts == Seq::<(Seq<char>, Seq<char>)>::empty(),
            r@.id.spec_value() == 0,
    {
        let r = StatusBar {
            id: ComponentId::new(0),
            message: String::from_str(message),
            message_type: StatusMessageType::Info,
            shortcuts: Vec::new(),
        };
        assert(r@.shortcuts =~= Seq::<(Seq<char>, Seq<char>)>::empty());
        r
    }

    /// Sets the component identifier.
    pub fn with_id(self, id: ComponentId) -> (r: Self)
        ensures
            r@ == (StatusBarView { id, ..self@ }),
    {
        let mut s = self;
        s.id = id;
        s
    }

    /// Replaces the message.
    pub fn set_message(&mut self, message: &str)
        ensures
            final(self)@ == (StatusBarView { message: message@, ..old(self)@ }),
    {
        self.message = String::from_str(message);
    }

    /// The message.
    pub fn message(&self) -> (r: &str)
        ensures
            r@ == self@.message,
    {
        self.message.as_str()
    }

    /// Sets the kind of the message.
    pub fn set_message_type(&mut self, msg_type: StatusMessageType)
        ensures
            final(self)@ == (StatusBarView { message_type: msg_type, ..old(self)@ }),
    {
        self.message_type = msg_type;
    }

    /// The kind of the message.
    pub fn message_type(&self) -> (r: StatusMessageType)
        ensures
            r == self@.message_type,
    {
        self.message_type
    }

    /// Appends a shortcut hint.
    pub fn add_shortcut(&mut self, key: &str, desc: &str)
        ensures
            final(self)@ == (StatusBarView { shortcuts: old(self)@.shortcuts.push((key@, desc@)), ..old(self)@ }),
    {
        let ghost before = self.shortcuts@;
        self.shortcuts.push((String::from_str(key), String::from_str(desc)));
        assert(self@.shortcuts =~= before.map_values(|p: (String, String)| (p.0@, p.1@)).push((key@, desc@)));
    }

    /// Number of shortcut hints.
    pub fn shortcut_count(&self) -> (n: usize)
        ensures
            n == self@.shortcuts.len(),
    {
        self.shortcuts.len()
    }

    /// Removes every shortcut hint.
    pub fn clear_shortcuts(&mut self)
        ensures
            final(self)@ == (StatusBarView { shortcuts: Seq::empty(), ..old(self)@ }),
    {
        self.shortcuts.clear();
        assert(self@.shortcuts =~= Seq::<(Seq<char>, Seq<char>)>::empty());
    }

    /// The status bar does not handle keys.
    pub fn handle_key(&mut self, key: KeyEvent) -> (r: HandleResult)
        ensures
            r is Ignored,
            final(self)@ == old(self)@,
    {
        HandleResult::Ignored
    }

    /// The component identifier.
    pub fn id(&self) -> (r: ComponentId)
        ensures
            r == self@.id,
    {
        self.id
    }

    /// The status bar never takes the focus.
    pub fn can_focus(&self) -> (b: bool)
        ensures
            !b,
    {
        false
    }
}

impl Default for StatusBar {
    fn default() -> (r: Self)
        ensures
            r@.message == "Ready"@,
            r@.message_type == StatusMessageType::Info,
            r@.shortcuts == Seq::<(Seq<char>, Seq<char>)>::empty(),
    {
        StatusBar::new("Ready")
    }
}

} // verus!
