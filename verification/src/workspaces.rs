//! The workspace manager: the order workspaces are listed in (pinned
//! first, then by name), and what keys do in its list, its editor and its
//! delete confirmation.

use vstd::prelude::*;
use vstd::string::*;
use crate::fields::{pop_last, without_last};
use crate::keys::Key;
use crate::seq_facts::{lemma_filter_none, lemma_filter_push};
use crate::text::{
    lemma_seq_char_lt_irreflexive, lemma_seq_char_lt_total, lemma_seq_char_lt_transitive,
    push_char, seq_char_lt, str_less,
};

verus! {

/// A saved workspace: a named set of projects.
#[derive(Debug, Clone)]
pub struct WorkspaceInfo {
    pub id: String,
    pub name: String,
    pub pinned: bool,
    pub project_ids: Vec<String>,
}

/// Whether workspace `a` is listed before workspace `b`: pinned ones
/// first, then by name.
pub open spec fn listed_before(a: WorkspaceInfo, b: WorkspaceInfo) -> bool {
    (a.pinned && !b.pinned) || (a.pinned == b.pinned && seq_char_lt(a.name@, b.name@))
}

/// The workspaces with this pin state and name.
pub open spec fn same_place(pinned: bool, name: Seq<char>) -> spec_fn(WorkspaceInfo) -> bool {
    |w: WorkspaceInfo| w.pinned == pinned && w.name@ == name
}

/// `r` is `ws` in listing order: pinned first, then by name, workspaces
/// with equal pin state and name in their stored order (a stable sort).
pub open spec fn listing_order(r: Seq<WorkspaceInfo>, ws: Seq<WorkspaceInfo>) -> bool {
    &&& forall|i: int, j: int| 0 <= i < j < r.len() ==> !listed_before(#[trigger] r[j], #[trigger] r[i])
    &&& forall|pinned: bool, name: Seq<char>| #[trigger]
        r.filter(same_place(pinned, name)) == ws.filter(same_place(pinned, name))
}

/// `listed_before` is a strict order, total up to pin state and name.
proof fn lemma_listed_before_order(a: WorkspaceInfo, b: WorkspaceInfo, c: WorkspaceInfo)
    ensures
        !listed_before(a, a),
        listed_before(a, b) && listed_before(b, c) ==> listed_before(a, c),
        (a.pinned != b.pinned || a.name@ != b.name@) ==> listed_before(a, b) || listed_before(b, a),
        listed_before(a, b) ==> !listed_before(b, a),
{
    lemma_seq_char_lt_irreflexive(a.name@);
    if listed_before(a, b) && listed_before(b, c) && a.pinned == b.pinned && b.pinned == c.pinned {
        lemma_seq_char_lt_transitive(a.name@, b.name@, c.name@);
    }
    if a.pinned == b.pinned && a.name@ != b.name@ {
        lemma_seq_char_lt_total(a.name@, b.name@);
    }
    if listed_before(a, b) && listed_before(b, a) {
        lemma_seq_char_lt_transitive(a.name@, b.name@, a.name@);
    }
}

/// Inserting `x` after every workspace it does not precede and before the
/// first it does keeps the listing order.
proof fn lemma_insert_listed(out: Seq<WorkspaceInfo>, x: WorkspaceInfo, p: int, done: Seq<WorkspaceInfo>)
    requires
        0 <= p <= out.len(),
        listing_order(out, done),
        forall|k: int| 0 <= k < p ==> !listed_before(x, #[trigger] out[k]),
        p < out.len() ==> listed_before(x, out[p]),
    ensures
        listing_order(out.insert(p, x), done.push(x)),
{
    let n = out.insert(p, x);
    let a = out.subrange(0, p);
    let b = out.subrange(p, out.len() as int);
    assert(n =~= a.push(x) + b);
    assert(out =~= a + b);
    assert forall|k: int| p <= k < out.len() implies listed_before(x, #[trigger] out[k]) by {
        if k > p {
            assert(!listed_before(out[k], out[p]));
            lemma_listed_before_order(out[k], out[p], x);
            lemma_listed_before_order(x, out[p], out[k]);
            lemma_listed_before_order(out[p], out[k], x);
        }
    }
    assert forall|i: int, j: int| 0 <= i < j < n.len() implies !listed_before(
        #[trigger] n[j],
        #[trigger] n[i],
    ) by {
        if j < p {
            assert(n[i] == out[i] && n[j] == out[j]);
        } else if j == p {
            assert(n[i] == out[i]);
        } else if i == p {
            assert(n[j] == out[j - 1]);
            lemma_listed_before_order(x, out[j - 1], x);
        } else if i < p {
            assert(n[i] == out[i] && n[j] == out[j - 1]);
        } else {
            assert(n[i] == out[i - 1] && n[j] == out[j - 1]);
        }
    }
    assert forall|pinned: bool, name: Seq<char>| #[trigger]
        n.filter(same_place(pinned, name)) == done.push(x).filter(same_place(pinned, name)) by {
        let f = same_place(pinned, name);
        Seq::filter_distributes_over_add(a.push(x), b, f);
        Seq::filter_distributes_over_add(a, b, f);
        lemma_filter_push(a, f, x);
        lemma_filter_push(done, f, x);
        assert(out.filter(f) == done.filter(f));
        if f(x) {
            assert forall|k: int| 0 <= k < b.len() implies !f(#[trigger] b[k]) by {
                assert(b[k] == out[k + p]);
                assert(listed_before(x, out[k + p]));
                lemma_seq_char_lt_irreflexive(x.name@);
            }
            lemma_filter_none(b, f);
            assert(a.filter(f).push(x) + b.filter(f) =~= a.filter(f).push(x));
            assert(a.filter(f) + b.filter(f) =~= a.filter(f));
        }
    }
}

fn is_listed_before(a: &WorkspaceInfo, b: &WorkspaceInfo) -> (r: bool)
    ensures
        r == listed_before(*a, *b),
{
    (a.pinned && !b.pinned) || (a.pinned == b.pinned && str_less(a.name.as_str(), b.name.as_str()))
}

/// Orders workspaces for the list: pinned ones first, then by name, as
/// the stable `sort_by` of the list does.
pub fn sort_workspaces(ws: Vec<WorkspaceInfo>) -> (r: Vec<WorkspaceInfo>)
    ensures
        listing_order(r@, ws@),
{
    let ghost all = ws@;
    let n = ws.len();
    let mut rest = ws;
    let mut out: Vec<WorkspaceInfo> = Vec::new();
    let mut i: usize = 0;
    proof {
        assert forall|pinned: bool, name: Seq<char>| #[trigger]
            out@.filter(same_place(pinned, name)) == all.take(0).filter(same_place(pinned, name)) by {
            reveal(Seq::filter);
            assert(all.take(0) =~= Seq::<WorkspaceInfo>::empty());
        }
    }
    while i < n
        invariant
            n == all.len(),
            i <= n,
            rest@ == all.subrange(i as int, n as int),
            listing_order(out@, all.take(i as int)),
        decreases n - i,
    {
        let x = rest.remove(0);
        proof {
            assert(x == all[i as int]);
            assert(all.take(i + 1) =~= all.take(i as int).push(x));
            assert(rest@ =~= all.subrange(i + 1, n as int));
        }
        let mut p: usize = 0;
        while p < out.len() && !is_listed_before(&x, &out[p])
            invariant
                p <= out@.len(),
                forall|k: int| 0 <= k < p ==> !listed_before(x, #[trigger] out@[k]),
            decreases out@.len() - p,
        {
            p = p + 1;
        }
        proof {
            lemma_insert_listed(out@, x, p as int, all.take(i as int));
        }
        out.insert(p, x);
        i = i + 1;
    }
    proof {
        assert(all.take(n as int) =~= all);
    }
    out
}

/// What the workspace manager shows.
#[derive(Debug, Clone, Copy, PartialEq, Eq, Structural)]
pub enum WorkspaceMode {
    List,
    Create,
    Edit,
    Delete,
}

/// The field of the workspace editor with focus.
#[derive(Debug, Clone, Copy, PartialEq, Eq, Structural)]
pub enum WorkspaceFocus {
    Name,
    Projects,
}

/// The workspace manager's state that keys change.
#[derive(Debug, Clone)]
pub struct WorkspaceManager {
    pub mode: WorkspaceMode,
    pub focus: WorkspaceFocus,
    /// The selected row of the workspace list.
    pub selected_index: usize,
    /// The selected row of the editor's project list.
    pub project_selector_index: usize,
    /// The name being edited.
    pub editing_name: String,
}

/// The manager as the contracts speak of it.
pub struct WorkspaceManagerView {
    pub mode: WorkspaceMode,
    pub focus: WorkspaceFocus,
    pub selected_index: usize,
    pub project_selector_index: usize,
    pub editing_name: Seq<char>,
}

impl View for WorkspaceManager {
    type V = WorkspaceManagerView;

    open spec fn view(&self) -> WorkspaceManagerView {
        WorkspaceManagerView {
            mode: self.mode,
            focus: self.focus,
            selected_index: self.selected_index,
            project_selector_index: self.project_selector_index,
            editing_name: self.editing_name@,
        }
    }
}

/// What a key in the workspace manager asks of the application.
#[derive(Debug, Clone, Copy, PartialEq, Eq, Structural)]
pub enum WorkspaceAction {
    Close,
    MoveUp,
    /// Move down within this many workspaces.
    MoveDown(usize),
    /// Switch to the listed workspace at this row and close.
    SwitchTo(usize),
    /// Open the editor for a new workspace.
    StartCreate,
    /// Open the editor on the listed workspace at this row.
    StartEdit(usize),
    /// Ask to delete the selected workspace.
    StartDelete,
    /// Pin or unpin the listed workspace at this row.
    TogglePin(usize),
    /// Show all projects (no workspace) and close.
    ShowAll,
    /// Leave the editor or the confirmation for the list.
    BackToList,
    /// Select or unselect the project at this row of the editor.
    ToggleProject(usize),
    /// Save the edited workspace if it can be saved, then close.
    SaveIfReady,
    /// Delete the stored workspace at this position, then go back to the
    /// list.
    Delete(usize),
    Updated,
    Ignore,
}

/// What a key does in the workspace manager and the manager after it.
/// `listed` counts the workspaces, `projects` the projects the editor
/// offers. The delete confirmation deletes the workspace at the selected
/// position of the stored list, which is not sorted as the listing is.
pub open spec fn workspace_step(
    v: WorkspaceManagerView,
    key: Key,
    listed: usize,
    projects: usize,
) -> (
    WorkspaceAction,
    WorkspaceManagerView,
) {
    let sel = v.selected_index;
    match v.mode {
        WorkspaceMode::List => match key {
            Key::Esc => (WorkspaceAction::Close, v),
            Key::Up => (WorkspaceAction::MoveUp, v),
            Key::Down => (WorkspaceAction::MoveDown(listed), v),
            Key::Enter => if sel < listed {
                (WorkspaceAction::SwitchTo(sel), v)
            } else {
                (WorkspaceAction::Ignore, v)
            },
            Key::Backspace => (WorkspaceAction::ShowAll, v),
            Key::Char(c) => if c == 'q' {
                (WorkspaceAction::Close, v)
            } else if c == 'k' {
                (WorkspaceAction::MoveUp, v)
            } else if c == 'j' {
                (WorkspaceAction::MoveDown(listed), v)
            } else if c == 'n' {
                (WorkspaceAction::StartCreate, v)
            } else if c == 'e' {
                if sel < listed {
                    (WorkspaceAction::StartEdit(sel), v)
                } else {
                    (WorkspaceAction::Ignore, v)
                }
            } else if c == 'd' {
                if listed > 0 {
                    (WorkspaceAction::StartDelete, v)
                } else {
                    (WorkspaceAction::Ignore, v)
                }
            } else if c == 'p' {
                if sel < listed {
                    (WorkspaceAction::TogglePin(sel), v)
                } else {
                    (WorkspaceAction::Ignore, v)
                }
            } else {
                (WorkspaceAction::Ignore, v)
            },
            _ => (WorkspaceAction::Ignore, v),
        },
        WorkspaceMode::Create | WorkspaceMode::Edit => {
            let on_projects = v.focus == WorkspaceFocus::Projects;
            let up = WorkspaceManagerView {
                project_selector_index: if v.project_selector_index > 0 {
                    (v.project_selector_index - 1) as usize
                } else {
                    v.project_selector_index
                },
                ..v
            };
            let down = WorkspaceManagerView {
                project_selector_index: if v.project_selector_index + 1 < projects {
                    (v.project_selector_index + 1) as usize
                } else {
                    v.project_selector_index
                },
                ..v
            };
            match key {
                Key::Esc => (WorkspaceAction::BackToList, v),
                Key::Tab => (
                    WorkspaceAction::Updated,
                    WorkspaceManagerView {
                        focus: if on_projects {
                            WorkspaceFocus::Name
                        } else {
                            WorkspaceFocus::Projects
                        },
                        ..v
                    },
                ),
                Key::Up => if on_projects {
                    (WorkspaceAction::Updated, up)
                } else {
                    (WorkspaceAction::Ignore, v)
                },
                Key::Down => if on_projects {
                    (WorkspaceAction::Updated, down)
                } else {
                    (WorkspaceAction::Ignore, v)
                },
                Key::Enter => (WorkspaceAction::SaveIfReady, v),
                Key::Char(c) => if on_projects && c == 'k' {
                    (WorkspaceAction::Updated, up)
                } else if on_projects && c == 'j' {
                    (WorkspaceAction::Updated, down)
                } else if on_projects && c == ' ' {
                    if v.project_selector_index < projects {
                        (WorkspaceAction::ToggleProject(v.project_selector_index), v)
                    } else {
                        (WorkspaceAction::Ignore, v)
                    }
                } else if !on_projects {
                    (
                        WorkspaceAction::Updated,
                        WorkspaceManagerView { editing_name: v.editing_name.push(c), ..v },
                    )
                } else {
                    (WorkspaceAction::Ignore, v)
                },
                Key::Backspace => if !on_projects {
                    (
                        WorkspaceAction::Updated,
                        WorkspaceManagerView { editing_name: without_last(v.editing_name), ..v },
                    )
                } else {
                    (WorkspaceAction::Ignore, v)
                },
                _ => (WorkspaceAction::Ignore, v),
            }
        },
        WorkspaceMode::Delete => if key == Key::Esc {
            (WorkspaceAction::BackToList, v)
        } else if (key == Key::Enter || key == Key::Char('d')) && sel < listed {
            (
                WorkspaceAction::Delete(sel),
                WorkspaceManagerView {
                    selected_index: if sel > 0 {
                        (sel - 1) as usize
                    } else {
                        0
                    },
                    ..v
                },
            )
        } else {
            (WorkspaceAction::Ignore, v)
        },
    }
}

/// Handles a key in the workspace manager. `listed` counts the listed
/// workspaces (in the delete confirmation: the stored ones), `projects`
/// the projects the editor offers.
pub fn handle_workspace_manager_key(
    m: &mut WorkspaceManager,
    key: Key,
    listed: usize,
    projects: usize,
) -> (r: WorkspaceAction)
    ensures
        (r, final(m)@) == workspace_step(old(m)@, key, listed, projects),
{
    let sel = m.selected_index;
    match m.mode {
        WorkspaceMode::List => match key {
            Key::Esc => WorkspaceAction::Close,
            Key::Up => WorkspaceAction::MoveUp,
            Key::Down => WorkspaceAction::MoveDown(listed),
            Key::Enter => if sel < listed {
                WorkspaceAction::SwitchTo(sel)
            } else {
                WorkspaceAction::Ignore
            },
            Key::Backspace => WorkspaceAction::ShowAll,
            Key::Char(c) => if c == 'q' {
                WorkspaceAction::Close
            } else if c == 'k' {
                WorkspaceAction::MoveUp
            } else if c == 'j' {
                WorkspaceAction::MoveDown(listed)
            } else if c == 'n' {
                WorkspaceAction::StartCreate
            } else if c == 'e' {
                if sel < listed {
                    WorkspaceAction::StartEdit(sel)
                } else {
                    WorkspaceAction::Ignore
                }
            } else if c == 'd' {
                if listed > 0 {
                    WorkspaceAction::StartDelete
                } else {
                    WorkspaceAction::Ignore
                }
            } else if c == 'p' {
                if sel < listed {
                    WorkspaceAction::TogglePin(sel)
                } else {
                    WorkspaceAction::Ignore
                }
            } else {
                WorkspaceAction::Ignore
            },
            _ => WorkspaceAction::Ignore,
        },
        WorkspaceMode::Delete => {
            let confirm = match key {
                Key::Enter => true,
                Key::Char(c) => c == 'd',
                _ => false,
            };
            if key == Key::Esc {
                WorkspaceAction::BackToList
            } else if confirm && sel < listed {
                m.selected_index = sel.saturating_sub(1);
                WorkspaceAction::Delete(sel)
            } else {
                WorkspaceAction::Ignore
            }
        },
        _ => {
            let on_projects = m.focus == WorkspaceFocus::Projects;
            match key {
                Key::Esc => WorkspaceAction::BackToList,
                Key::Tab => {
                    m.focus = if on_projects {
                        WorkspaceFocus::Name
                    } else {
                        WorkspaceFocus::Projects
                    };
                    WorkspaceAction::Updated
                },
                Key::Up => if on_projects {
                    if m.project_selector_index > 0 {
                        m.project_selector_index = m.project_selector_index - 1;
                    }
                    WorkspaceAction::Updated
                } else {
                    WorkspaceAction::Ignore
                },
                Key::Down => if on_projects {
                    if projects > 0 && m.project_selector_index < projects - 1 {
                        m.project_selector_index = m.project_selector_index + 1;
                    }
                    WorkspaceAction::Updated
                } else {
                    WorkspaceAction::Ignore
                },
                Key::Enter => WorkspaceAction::SaveIfReady,
                Key::Char(c) => if on_projects && c == 'k' {
                    if m.project_selector_index > 0 {
                        m.project_selector_index = m.project_selector_index - 1;
                    }
                    WorkspaceAction::Updated
                } else if on_projects && c == 'j' {
                    if projects > 0 && m.project_selector_index < projects - 1 {
                        m.project_selector_index = m.project_selector_index + 1;
                    }
                    WorkspaceAction::Updated
                } else if on_projects && c == ' ' {
                    if m.project_selector_index < projects {
                        WorkspaceAction::ToggleProject(m.project_selector_index)
                    } else {
                        WorkspaceAction::Ignore
                    }
                } else if !on_projects {
                    push_char(&mut m.editing_name, c);
                    WorkspaceAction::Updated
                } else {
                    WorkspaceAction::Ignore
                },
                Key::Backspace => if !on_projects {
                    pop_last(&mut m.editing_name);
                    WorkspaceAction::Updated
                } else {
                    WorkspaceAction::Ignore
                },
                _ => WorkspaceAction::Ignore,
            }
        },
    }
}

/// The status after a workspace change.
#[derive(Debug, Clone, Copy, PartialEq, Eq, Structural)]
pub enum WorkspaceEvent {
    SwitchedTo,
    Created,
    Updated,
    Deleted,
}

/// The status line after switching to, creating, updating or deleting the
/// workspace named `name`.
pub fn workspace_status(event: WorkspaceEvent, name: &str) -> (r: String)
    ensures
        r@ == match event {
            WorkspaceEvent::SwitchedTo => "Switched to workspace: "@,
            WorkspaceEvent::Created => "Created workspace: "@,
            WorkspaceEvent::Updated => "Updated workspace: "@,
            WorkspaceEvent::Deleted => "Deleted workspace: "@,
        } + name@,
{
    let mut r = match event {
        WorkspaceEvent::SwitchedTo => String::from_str("Switched to workspace: "),
        WorkspaceEvent::Created => String::from_str("Created workspace: "),
        WorkspaceEvent::Updated => String::from_str("Updated workspace: "),
        WorkspaceEvent::Deleted => String::from_str("Deleted workspace: "),
    };
    r.append(name);
    r
}

/// The status after pinning or unpinning a workspace.
pub fn pin_status(is_pinned: bool) -> (r: String)
    ensures
        r@ == if is_pinned {
            "Workspace pinned"@
        } else {
            "Workspace unpinned"@
        },
{
    if is_pinned {
        String::from_str("Workspace pinned")
    } else {
        String::from_str("Workspace unpinned")
    }
}

} // verus!
