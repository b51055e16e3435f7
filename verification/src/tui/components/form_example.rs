//! Example form composed of a text input, a text area and a selection.
use vstd::prelude::*;
use crate::tui::app_types::TuiResult;
use crate::tui::components::select::{Select, SelectItem};
use crate::tui::components::text_area::TextArea;
use crate::tui::components::text_input::TextInput;
use crate::tui::traits::ComponentId;

verus! {

/// A form with a user name, a description and a role.
pub struct SampleForm {
    id: ComponentId,
    username_input: TextInput,
    description_area: TextArea,
    role_select: Select,
    focused: bool,
}

impl SampleForm {
    /// The user name typed so far.
    pub closed spec fn username_view(&self) -> Seq<char> {
        self.username_input.text_view()
    }

    /// The description typed so far.
    pub closed spec fn description_view(&self) -> Seq<char> {
        self.description_area.text_view()
    }

    /// The value of the chosen role, if one is chosen.
    pub closed spec fn role_view(&self) -> Option<Seq<char>> {
        match self.role_select.selected_view() {
            Some(i) => Some(self.role_select.items_view()[i as int].value@),
            None => None,
        }
    }

    pub closed spec fn id_view(&self) -> ComponentId {
        self.id
    }

    pub closed spec fn focused_view(&self) -> bool {
        self.focused
    }

    pub closed spec fn wf(&self) -> bool {
        self.username_input.wf() && self.description_area.wf() && self.role_select.wf()
    }

    /// An empty form: a user name of at most 50 bytes, a titled description,
    /// and a choice among the administrator, user and guest roles.
    pub fn new() -> (r: Self)
        ensures
            r.wf(),
            r.username_view() == Seq::<char>::empty(),
            r.description_view() == Seq::<char>::empty(),
            r.role_view() is None,
            r.id_view().spec_value() == 0,
            !r.focused_view(),
    {
        let username_input = TextInput::new("输入用户名...").with_id(ComponentId::new(1)).with_max_length(50);
        let description_area = TextArea::new("输入描述...").with_id(ComponentId::new(2)).with_title("描述");
        let mut role_items: Vec<SelectItem> = Vec::new();
        role_items.push(SelectItem::new("管理员", "admin"));
        role_items.push(SelectItem::new("普通用户", "user"));
        role_items.push(SelectItem::new("访客", "guest"));
        let role_select = Select::new(role_items).with_id(ComponentId::new(3)).with_title("用户角色");
        SampleForm { id: ComponentId::new(0), username_input, description_area, role_select, focused: false }
    }

    /// The user name.
    pub fn username(&self) -> (r: String)
        requires
            self.wf(),
        ensures
            r@ == self.username_view(),
    {
        self.username_input.text()
    }

    /// The description.
    pub fn description(&self) -> (r: String)
        requires
            self.wf(),
        ensures
            r@ == self.description_view(),
    {
        self.description_area.text()
    }

    /// The value of the chosen role.
    pub fn role(&self) -> (r: Option<&str>)
        requires
            self.wf(),
        ensures
            self.role_view() is None ==> r is None,
            self.role_view() is Some ==> r is Some && r->0@ == self.role_view()->0,
    {
        self.role_select.selected_value()
    }

    /// The component identifier.
    pub fn id(&self) -> (r: ComponentId)
        ensures
            r == self.id_view(),
    {
        self.id
    }

    /// The form can take the focus.
    pub fn can_focus(&self) -> (b: bool)
        ensures
            b,
    {
        true
    }

    /// Takes the focus.
    pub fn on_focus_gain(&mut self) -> (r: TuiResult<()>)
        ensures
            r is Ok,
            final(self).focused_view(),
            final(self).username_view() == old(self).username_view(),
            final(self).description_view() == old(self).description_view(),
            final(self).role_view() == old(self).role_view(),
            final(self).wf() == old(self).wf(),
    {
        self.focused = true;
        Ok(())
    }

    /// Gives up the focus.
    pub fn on_focus_loss(&mut self) -> (r: TuiResult<()>)
        ensures
            r is Ok,
            !final(self).focused_view(),
            final(self).username_view() == old(self).username_view(),
            final(self).description_view() == old(self).description_view(),
            final(self).role_view() == old(self).role_view(),
            final(self).wf() == old(self).wf(),
    {
        self.focused = false;
        Ok(())
    }
}

} // verus!
