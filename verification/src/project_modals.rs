//! The project modals: a project's agent settings (adding, removing and
//! choosing the project manager among its agents) and the project creation
//! wizard.

use vstd::prelude::*;
use vstd::string::*;
use crate::fields::{pop_last, without_last};
use crate::keys::Key;
use crate::text::push_char;

verus! {

/// The project settings modal's state that keys change.
#[derive(Debug, Clone)]
pub struct ProjectSettingsState {
    /// An agent is being picked to add.
    pub in_add_mode: bool,
    /// The filter of the agent picker.
    pub add_filter: String,
    /// The row of the agent picker.
    pub add_index: usize,
    /// The row of the project's agent list.
    pub selector_index: usize,
}

/// The state as the contracts speak of it.
pub struct ProjectSettingsView {
    pub in_add_mode: bool,
    pub add_filter: Seq<char>,
    pub add_index: usize,
    pub selector_index: usize,
}

impl View for ProjectSettingsState {
    type V = ProjectSettingsView;

    open spec fn view(&self) -> ProjectSettingsView {
        ProjectSettingsView {
            in_add_mode: self.in_add_mode,
            add_filter: self.add_filter@,
            add_index: self.add_index,
            selector_index: self.selector_index,
        }
    }
}

/// What a key in the project settings modal asks of the application.
#[derive(Debug, Clone, Copy, PartialEq, Eq, Structural)]
pub enum ProjectSettingsAction {
    Close,
    /// Add the picker's agent at this row, if there is one (then see
    /// `agent_added`).
    AddAgentAt(usize),
    /// Remove the project's agent at this row (then see `agent_removed`).
    RemoveAgentAt(usize),
    /// Make the project's agent at this row its project manager.
    SetPmAt(usize),
    /// Publish the changed agent list and close.
    Save,
    Updated,
    Ignore,
}

/// The state with the agent picker closed (or freshly opened): filter
/// emptied, first row selected.
pub open spec fn picker_reset(v: ProjectSettingsView, open: bool) -> ProjectSettingsView {
    ProjectSettingsView { in_add_mode: open, add_filter: Seq::<char>::empty(), add_index: 0, ..v }
}

/// What a key does in the project settings modal and the state after it;
/// `available` counts the agents the picker offers, `pending` the
/// project's agents, `has_changes` whether the list was changed.
pub open spec fn project_settings_step(
    v: ProjectSettingsView,
    key: Key,
    available: usize,
    pending: usize,
    has_changes: bool,
) -> (ProjectSettingsAction, ProjectSettingsView) {
    if v.in_add_mode {
        match key {
            Key::Esc => (ProjectSettingsAction::Updated, picker_reset(v, false)),
            Key::Up => (
                ProjectSettingsAction::Updated,
                if v.add_index > 0 {
                    ProjectSettingsView { add_index: (v.add_index - 1) as usize, ..v }
                } else {
                    v
                },
            ),
            Key::Down => (
                ProjectSettingsAction::Updated,
                if v.add_index + 1 < available {
                    ProjectSettingsView { add_index: (v.add_index + 1) as usize, ..v }
                } else {
                    v
                },
            ),
            Key::Enter => (ProjectSettingsAction::AddAgentAt(v.add_index), v),
            Key::Char(c) => (
                ProjectSettingsAction::Updated,
                ProjectSettingsView { add_filter: v.add_filter.push(c), add_index: 0, ..v },
            ),
            Key::Backspace => (
                ProjectSettingsAction::Updated,
                ProjectSettingsView { add_filter: without_last(v.add_filter), add_index: 0, ..v },
            ),
            _ => (ProjectSettingsAction::Ignore, v),
        }
    } else {
        match key {
            Key::Esc => (ProjectSettingsAction::Close, v),
            Key::Up => (
                ProjectSettingsAction::Updated,
                if v.selector_index > 0 {
                    ProjectSettingsView { selector_index: (v.selector_index - 1) as usize, ..v }
                } else {
                    v
                },
            ),
            Key::Down => (
                ProjectSettingsAction::Updated,
                if v.selector_index + 1 < pending {
                    ProjectSettingsView { selector_index: (v.selector_index + 1) as usize, ..v }
                } else {
                    v
                },
            ),
            Key::Char(c) => if c == 'a' {
                (ProjectSettingsAction::Updated, picker_reset(v, true))
            } else if c == 'd' {
                if pending > 0 {
                    (ProjectSettingsAction::RemoveAgentAt(v.selector_index), v)
                } else {
                    (ProjectSettingsAction::Ignore, v)
                }
            } else if c == 'p' {
                if pending > 0 && v.selector_index > 0 {
                    (
                        ProjectSettingsAction::SetPmAt(v.selector_index),
                        ProjectSettingsView { selector_index: 0, ..v },
                    )
                } else {
                    (ProjectSettingsAction::Ignore, v)
                }
            } else {
                (ProjectSettingsAction::Ignore, v)
            },
            Key::Enter => if has_changes {
                (ProjectSettingsAction::Save, v)
            } else {
                (ProjectSettingsAction::Ignore, v)
            },
            _ => (ProjectSettingsAction::Ignore, v),
        }
    }
}

fn reset_picker(st: &mut ProjectSettingsState, open: bool)
    ensures
        final(st)@ == picker_reset(old(st)@, open),
{
    st.in_add_mode = open;
    st.add_filter = String::new();
    st.add_index = 0;
}

/// Handles a key in the project settings modal.
pub fn handle_project_settings_key(
    st: &mut ProjectSettingsState,
    key: Key,
    available: usize,
    pending: usize,
    has_changes: bool,
) -> (r: ProjectSettingsAction)
    ensures
        (r, final(st)@) == project_settings_step(old(st)@, key, available, pending, has_changes),
{
    if st.in_add_mode {
        match key {
            Key::Esc => {
                reset_picker(st, false);
                ProjectSettingsAction::Updated
            },
            Key::Up => {
                if st.add_index > 0 {
                    st.add_index = st.add_index - 1;
                }
                ProjectSettingsAction::Updated
            },
            Key::Down => {
                if available > 0 && st.add_index < available - 1 {
                    st.add_index = st.add_index + 1;
                }
                ProjectSettingsAction::Updated
            },
            Key::Enter => ProjectSettingsAction::AddAgentAt(st.add_index),
            Key::Char(c) => {
                push_char(&mut st.add_filter, c);
                st.add_index = 0;
                ProjectSettingsAction::Updated
            },
            Key::Backspace => {
                pop_last(&mut st.add_filter);
                st.add_index = 0;
                ProjectSettingsAction::Updated
            },
            _ => ProjectSettingsAction::Ignore,
        }
    } else {
        match key {
            Key::Esc => ProjectSettingsAction::Close,
            Key::Up => {
                if st.selector_index > 0 {
                    st.selector_index = st.selector_index - 1;
                }
                ProjectSettingsAction::Updated
            },
            Key::Down => {
                if pending > 0 && st.selector_index < pending - 1 {
                    st.selector_index = st.selector_index + 1;
                }
                ProjectSettingsAction::Updated
            },
            Key::Char(c) => if c == 'a' {
                reset_picker(st, true);
                ProjectSettingsAction::Updated
            } else if c == 'd' {
                if pending > 0 {
                    ProjectSettingsAction::RemoveAgentAt(st.selector_index)
                } else {
                    ProjectSettingsAction::Ignore
                }
            } else if c == 'p' {
                if pending > 0 && st.selector_index > 0 {
                    let at = st.selector_index;
                    st.selector_index = 0;
                    ProjectSettingsAction::SetPmAt(at)
                } else {
                    ProjectSettingsAction::Ignore
                }
            } else {
                ProjectSettingsAction::Ignore
            },
            Key::Enter => if has_changes {
                ProjectSettingsAction::Save
            } else {
                ProjectSettingsAction::Ignore
            },
            _ => ProjectSettingsAction::Ignore,
        }
    }
}

/// After the picker's agent was added: the picker closes.
pub fn agent_added(st: &mut ProjectSettingsState)
    ensures
        final(st)@ == picker_reset(old(st)@, false),
{
    reset_picker(st, false);
}

/// After an agent was removed, leaving `remaining` agents: a cursor past
/// the end moves up one row.
pub fn agent_removed(st: &mut ProjectSettingsState, remaining: usize)
    ensures
        final(st)@ == (ProjectSettingsView {
            selector_index: if old(st).selector_index >= remaining && old(st).selector_index > 0 {
                (old(st).selector_index - 1) as usize
            } else {
                old(st).selector_index
            },
            ..old(st)@
        }),
{
    if st.selector_index >= remaining && st.selector_index > 0 {
        st.selector_index = st.selector_index - 1;
    }
}

/// The status after publishing a project's agents or a new project was
/// attempted; none when not connected.
pub fn project_published_status(created: bool, connected: bool, error: Option<&str>) -> (r: Option<
    String,
>)
    ensures
        match r {
            None => !connected,
            Some(m) => connected && m@ == match error {
                Some(e) => (if created {
                    "Failed to create project: "@
                } else {
                    "Failed to update agents: "@
                }) + e@,
                None => if created {
                    "Project created"@
                } else {
                    "Project agents updated"@
                },
            },
        },
{
    if !connected {
        return None;
    }
    match error {
        Some(e) => {
            let mut m = if created {
                String::from_str("Failed to create project: ")
            } else {
                String::from_str("Failed to update agents: ")
            };
            m.append(e);
            Some(m)
        },
        None => if created {
            Some(String::from_str("Project created"))
        } else {
            Some(String::from_str("Project agents updated"))
        },
    }
}

/// The step of the project creation wizard.
#[derive(Debug, Clone, Copy, PartialEq, Eq, Structural)]
pub enum CreateProjectStep {
    Details,
    SelectAgents,
}

/// The field of the details step with focus.
#[derive(Debug, Clone, Copy, PartialEq, Eq, Structural)]
pub enum CreateProjectFocus {
    Name,
    Description,
}

/// The project creation wizard's state that keys change.
#[derive(Debug, Clone)]
pub struct CreateProjectForm {
    pub step: CreateProjectStep,
    pub focus: CreateProjectFocus,
    pub name: String,
    pub description: String,
    /// The filter of the agent list.
    pub agent_filter: String,
    /// The row of the agent list.
    pub agent_index: usize,
}

/// The wizard as the contracts speak of it.
pub struct CreateProjectView {
    pub step: CreateProjectStep,
    pub focus: CreateProjectFocus,
    pub name: Seq<char>,
    pub description: Seq<char>,
    pub agent_filter: Seq<char>,
    pub agent_index: usize,
}

impl View for CreateProjectForm {
    type V = CreateProjectView;

    open spec fn view(&self) -> CreateProjectView {
        CreateProjectView {
            step: self.step,
            focus: self.focus,
            name: self.name@,
            description: self.description@,
            agent_filter: self.agent_filter@,
            agent_index: self.agent_index,
        }
    }
}

/// What a key in the project creation wizard asks of the application.
#[derive(Debug, Clone, Copy, PartialEq, Eq, Structural)]
pub enum CreateProjectAction {
    Close,
    /// Select or unselect the filtered agent at this row.
    ToggleAgentAt(usize),
    /// Publish the project and close.
    Create,
    Updated,
    Ignore,
}

/// What a key does in the wizard and the wizard after it; `complete` says
/// whether the details may be left, `agents` counts the filtered agents.
pub open spec fn create_project_step(v: CreateProjectView, key: Key, complete: bool, agents: usize) -> (
    CreateProjectAction,
    CreateProjectView,
) {
    match v.step {
        CreateProjectStep::Details => match key {
            Key::Esc => (CreateProjectAction::Close, v),
            Key::Tab => (
                CreateProjectAction::Updated,
                CreateProjectView {
                    focus: if v.focus == CreateProjectFocus::Name {
                        CreateProjectFocus::Description
                    } else {
                        CreateProjectFocus::Name
                    },
                    ..v
                },
            ),
            Key::Enter => (
                CreateProjectAction::Updated,
                if complete {
                    CreateProjectView { step: CreateProjectStep::SelectAgents, ..v }
                } else {
                    v
                },
            ),
            Key::Char(c) => (
                CreateProjectAction::Updated,
                if v.focus == CreateProjectFocus::Name {
                    CreateProjectView { name: v.name.push(c), ..v }
                } else {
                    CreateProjectView { description: v.description.push(c), ..v }
                },
            ),
            Key::Backspace => (
                CreateProjectAction::Updated,
                if v.focus == CreateProjectFocus::Name {
                    CreateProjectView { name: without_last(v.name), ..v }
                } else {
                    CreateProjectView { description: without_last(v.description), ..v }
                },
            ),
            _ => (CreateProjectAction::Ignore, v),
        },
        CreateProjectStep::SelectAgents => match key {
            Key::Esc => (CreateProjectAction::Close, v),
            Key::Backspace => (
                CreateProjectAction::Updated,
                if v.agent_filter.len() == 0 {
                    CreateProjectView { step: CreateProjectStep::Details, ..v }
                } else {
                    CreateProjectView {
                        agent_filter: v.agent_filter.drop_last(),
                        agent_index: 0,
                        ..v
                    }
                },
            ),
            Key::Up => (
                CreateProjectAction::Updated,
                if v.agent_index > 0 {
                    CreateProjectView { agent_index: (v.agent_index - 1) as usize, ..v }
                } else {
                    v
                },
            ),
            Key::Down => (
                CreateProjectAction::Updated,
                if agents > 0 && v.agent_index + 1 < agents {
                    CreateProjectView { agent_index: (v.agent_index + 1) as usize, ..v }
                } else {
                    v
                },
            ),
            Key::Enter => (CreateProjectAction::Create, v),
            Key::Char(c) => if c == ' ' {
                if v.agent_index < agents {
                    (CreateProjectAction::ToggleAgentAt(v.agent_index), v)
                } else {
                    (CreateProjectAction::Ignore, v)
                }
            } else {
                (
                    CreateProjectAction::Updated,
                    CreateProjectView { agent_filter: v.agent_filter.push(c), agent_index: 0, ..v },
                )
            },
            _ => (CreateProjectAction::Ignore, v),
        },
    }
}

/// Handles a key in the project creation wizard.
pub fn handle_create_project_key(form: &mut CreateProjectForm, key: Key, complete: bool, agents: usize) -> (r:
    CreateProjectAction)
    ensures
        (r, final(form)@) == create_project_step(old(form)@, key, complete, agents),
{
    match form.step {
        CreateProjectStep::Details => match key {
            Key::Esc => CreateProjectAction::Close,
            Key::Tab => {
                form.focus = if form.focus == CreateProjectFocus::Name {
                    CreateProjectFocus::Description
                } else {
                    CreateProjectFocus::Name
                };
                CreateProjectAction::Updated
            },
            Key::Enter => {
                if complete {
                    form.step = CreateProjectStep::SelectAgents;
                }
                CreateProjectAction::Updated
            },
            Key::Char(c) => {
                if form.focus == CreateProjectFocus::Name {
                    push_char(&mut form.name, c);
                } else {
                    push_char(&mut form.description, c);
                }
                CreateProjectAction::Updated
            },
            Key::Backspace => {
                if form.focus == CreateProjectFocus::Name {
                    pop_last(&mut form.name);
                } else {
                    pop_last(&mut form.description);
                }
                CreateProjectAction::Updated
            },
            _ => CreateProjectAction::Ignore,
        },
        CreateProjectStep::SelectAgents => match key {
            Key::Esc => CreateProjectAction::Close,
            Key::Backspace => {
                if form.agent_filter.as_str().unicode_len() == 0 {
                    form.step = CreateProjectStep::Details;
                } else {
                    pop_last(&mut form.agent_filter);
                    form.agent_index = 0;
                }
                CreateProjectAction::Updated
            },
            Key::Up => {
                if form.agent_index > 0 {
                    form.agent_index = form.agent_index - 1;
                }
                CreateProjectAction::Updated
            },
            Key::Down => {
                if agents > 0 && form.agent_index < agents - 1 {
                    form.agent_index = form.agent_index + 1;
                }
                CreateProjectAction::Updated
            },
            Key::Enter => CreateProjectAction::Create,
            Key::Char(c) => if c == ' ' {
                if form.agent_index < agents {
                    CreateProjectAction::ToggleAgentAt(form.agent_index)
                } else {
                    CreateProjectAction::Ignore
                }
            } else {
                push_char(&mut form.agent_filter, c);
                form.agent_index = 0;
                CreateProjectAction::Updated
            },
            _ => CreateProjectAction::Ignore,
        },
    }
}

} // verus!
