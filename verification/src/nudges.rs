//! The nudge modals: the creation wizard (basics, content, tool
//! permissions, review), the list, the detail view and the delete
//! confirmation, and the tool lists a new nudge is published with.

use vstd::prelude::*;
use vstd::string::*;
use crate::fields::{pop_last, string_views, without_last};
use crate::keys::Key;
use crate::seq_facts::{lemma_filter_none, lemma_filter_push};
use crate::text::{push_char, str_eq};

verus! {

/// The step of the nudge wizard.
#[derive(Debug, Clone, Copy, PartialEq, Eq, Structural)]
pub enum NudgeStep {
    Basics,
    Content,
    Permissions,
    Review,
}

/// The field of the basics step that has focus.
#[derive(Debug, Clone, Copy, PartialEq, Eq, Structural)]
pub enum NudgeFocus {
    Title,
    Description,
    Hashtags,
}

/// Whether the permissions step browses the configured tools or picks a
/// tool to add to one of the lists.
#[derive(Debug, Clone, Copy, PartialEq, Eq, Structural)]
pub enum PermissionMode {
    Browse,
    AddAllow,
    AddDeny,
    AddOnly,
}

/// How the tool lists apply: allow and deny lists on top of the agent's
/// tools, or an exclusive list of the only tools allowed.
#[derive(Debug, Clone, Copy, PartialEq, Eq, Structural)]
pub enum ToolMode {
    Additive,
    Exclusive,
}

/// The tool permissions a nudge is configured with.
#[derive(Debug, Clone)]
pub struct ToolPermissions {
    pub mode: ToolMode,
    pub allow_tools: Vec<String>,
    pub deny_tools: Vec<String>,
    pub only_tools: Vec<String>,
}

/// The nudge wizard's state.
#[derive(Debug, Clone)]
pub struct NudgeForm {
    pub step: NudgeStep,
    pub focus: NudgeFocus,
    pub title: String,
    pub description: String,
    pub hashtag_input: String,
    pub hashtags: Vec<String>,
    pub content: String,
    pub permission_mode: PermissionMode,
    /// The configured tools are being browsed for removal.
    pub selecting_configured: bool,
    pub configured_tool_index: usize,
    pub tool_filter: String,
    pub tool_index: usize,
    pub tool_scroll: usize,
    pub review_scroll: usize,
    pub permissions: ToolPermissions,
}

/// What the tool lists offer the permissions step.
#[derive(Debug, Clone, Copy)]
pub struct ToolListInfo {
    /// How many available tools pass the tool filter.
    pub filtered_tool_count: usize,
    /// Whether any tool is configured in the current mode.
    pub has_configured_tools: bool,
}

/// A direction of the content editor's cursor.
#[derive(Debug, Clone, Copy, PartialEq, Eq, Structural)]
pub enum CursorMove {
    Up,
    Down,
    Left,
    Right,
}

/// What a key in the nudge wizard asks of the application, beyond the
/// changes made to the form itself. The caller carries these out on its
/// form state: the form returned here is left as it was for them (its
/// focus, hashtags and step are unchanged).
#[derive(Debug, Clone, Copy, PartialEq, Eq, Structural)]
pub enum NudgeFormAction {
    /// Close the wizard.
    Close,
    /// The caller moves the focus to the next field.
    FocusNext,
    /// The caller moves the focus to the previous field.
    FocusPrev,
    /// The caller turns the hashtag being typed into a hashtag.
    AddHashtag,
    /// The caller goes to the next step if the current one is complete.
    NextStepIfReady,
    /// Go to the next step.
    NextStep,
    PrevStep,
    InsertContentChar(char),
    BackspaceContent,
    MoveContentCursor(CursorMove),
    ConfiguredToolUp,
    ConfiguredToolDown,
    /// Remove the configured tool under the cursor (see
    /// `after_configured_tool_removed`).
    RemoveConfiguredTool,
    /// Switch the tool lists to this mode.
    SetToolMode(ToolMode),
    /// Add the filtered tool at this index to the list the mode names.
    AddTool { mode: PermissionMode, index: usize },
    /// Check the nudge and publish it (see `review_submission`).
    Submit,
    /// The form changed and nothing else is to be done.
    Updated,
    Ignore,
}

/// The form as the contracts speak of it.
pub struct NudgeFormView {
    pub step: NudgeStep,
    pub focus: NudgeFocus,
    pub title: Seq<char>,
    pub description: Seq<char>,
    pub hashtag_input: Seq<char>,
    pub hashtags: Seq<Seq<char>>,
    pub content: Seq<char>,
    pub permission_mode: PermissionMode,
    pub selecting_configured: bool,
    pub configured_tool_index: usize,
    pub tool_filter: Seq<char>,
    pub tool_index: usize,
    pub tool_scroll: usize,
    pub review_scroll: usize,
    pub tool_mode: ToolMode,
    pub allow_tools: Seq<Seq<char>>,
    pub deny_tools: Seq<Seq<char>>,
    pub only_tools: Seq<Seq<char>>,
}

impl View for NudgeForm {
    type V = NudgeFormView;

    open spec fn view(&self) -> NudgeFormView {
        NudgeFormView {
            step: self.step,
            focus: self.focus,
            title: self.title@,
            description: self.description@,
            hashtag_input: self.hashtag_input@,
            hashtags: string_views(self.hashtags@),
            content: self.content@,
            permission_mode: self.permission_mode,
            selecting_configured: self.selecting_configured,
            configured_tool_index: self.configured_tool_index,
            tool_filter: self.tool_filter@,
            tool_index: self.tool_index,
            tool_scroll: self.tool_scroll,
            review_scroll: self.review_scroll,
            tool_mode: self.permissions.mode,
            allow_tools: string_views(self.permissions.allow_tools@),
            deny_tools: string_views(self.permissions.deny_tools@),
            only_tools: string_views(self.permissions.only_tools@),
        }
    }
}

/// The form with the tool picker closed: back to browsing, filter emptied,
/// cursor and scroll at the top.
pub open spec fn picker_closed(v: NudgeFormView) -> NudgeFormView {
    NudgeFormView {
        permission_mode: PermissionMode::Browse,
        tool_filter: Seq::<char>::empty(),
        tool_index: 0,
        tool_scroll: 0,
        ..v
    }
}

/// The form with the tool picker opened for `mode`.
pub open spec fn picker_opened(v: NudgeFormView, mode: PermissionMode) -> NudgeFormView {
    NudgeFormView {
        permission_mode: mode,
        tool_filter: Seq::<char>::empty(),
        tool_index: 0,
        tool_scroll: 0,
        ..v
    }
}

/// The key's action in the basics step.
pub open spec fn basics_action(v: NudgeFormView, key: Key) -> NudgeFormAction {
    match key {
        Key::Esc => NudgeFormAction::Close,
        Key::Tab => NudgeFormAction::FocusNext,
        Key::BackTab => NudgeFormAction::FocusPrev,
        Key::Enter => if v.focus == NudgeFocus::Hashtags {
            NudgeFormAction::AddHashtag
        } else {
            NudgeFormAction::NextStepIfReady
        },
        Key::Char(c) => if c == ' ' && v.focus == NudgeFocus::Hashtags {
            NudgeFormAction::AddHashtag
        } else {
            NudgeFormAction::Updated
        },
        Key::Backspace => NudgeFormAction::Updated,
        _ => NudgeFormAction::Ignore,
    }
}

/// The form after a key in the basics step: typing goes to the focused
/// field; Backspace deletes from it, or, in an empty hashtag field,
/// removes the last hashtag.
pub open spec fn basics_after(v: NudgeFormView, key: Key) -> NudgeFormView {
    match key {
        Key::Char(c) => if c == ' ' && v.focus == NudgeFocus::Hashtags {
            v
        } else {
            match v.focus {
                NudgeFocus::Title => NudgeFormView { title: v.title.push(c), ..v },
                NudgeFocus::Description => NudgeFormView {
                    description: v.description.push(c),
                    ..v
                },
                NudgeFocus::Hashtags => NudgeFormView {
                    hashtag_input: v.hashtag_input.push(c),
                    ..v
                },
            }
        },
        Key::Backspace => match v.focus {
            NudgeFocus::Title => NudgeFormView { title: without_last(v.title), ..v },
            NudgeFocus::Description => NudgeFormView {
                description: without_last(v.description),
                ..v
            },
            NudgeFocus::Hashtags => if v.hashtag_input.len() == 0 {
                NudgeFormView {
                    hashtags: if v.hashtags.len() > 0 {
                        v.hashtags.drop_last()
                    } else {
                        v.hashtags
                    },
                    ..v
                }
            } else {
                NudgeFormView { hashtag_input: v.hashtag_input.drop_last(), ..v }
            },
        },
        _ => v,
    }
}

/// The key's action in the content step; Shift+Tab goes back.
pub open spec fn content_action(key: Key, shift: bool) -> NudgeFormAction {
    match key {
        Key::Esc => NudgeFormAction::Close,
        Key::Tab => if shift {
            NudgeFormAction::PrevStep
        } else {
            NudgeFormAction::NextStepIfReady
        },
        Key::Enter => NudgeFormAction::InsertContentChar('\n'),
        Key::Backspace => NudgeFormAction::BackspaceContent,
        Key::Up => NudgeFormAction::MoveContentCursor(CursorMove::Up),
        Key::Down => NudgeFormAction::MoveContentCursor(CursorMove::Down),
        Key::Left => NudgeFormAction::MoveContentCursor(CursorMove::Left),
        Key::Right => NudgeFormAction::MoveContentCursor(CursorMove::Right),
        Key::Char(c) => NudgeFormAction::InsertContentChar(c),
        _ => NudgeFormAction::Ignore,
    }
}

/// The key's action while configured tools are browsed for removal.
pub open spec fn removal_action(key: Key) -> NudgeFormAction {
    match key {
        Key::Esc => NudgeFormAction::Updated,
        Key::Up => NudgeFormAction::ConfiguredToolUp,
        Key::Down => NudgeFormAction::ConfiguredToolDown,
        Key::Char(c) => if c == 'x' {
            NudgeFormAction::RemoveConfiguredTool
        } else {
            NudgeFormAction::Ignore
        },
        Key::Delete => NudgeFormAction::RemoveConfiguredTool,
        Key::Enter => NudgeFormAction::RemoveConfiguredTool,
        _ => NudgeFormAction::Ignore,
    }
}

/// The key's action and the form after it while the permissions step
/// browses: Enter and Backspace change step, `1`/`2` pick the mode, `a`/`d`
/// (additive) or `o` (exclusive) open the tool picker, `x` starts removing
/// configured tools.
pub open spec fn browse_step(v: NudgeFormView, key: Key, info: ToolListInfo) -> (
    NudgeFormAction,
    NudgeFormView,
) {
    let additive = v.tool_mode == ToolMode::Additive;
    let reset = NudgeFormView { selecting_configured: false, configured_tool_index: 0, ..v };
    match key {
        Key::Esc => (NudgeFormAction::Close, v),
        Key::Enter => (NudgeFormAction::NextStep, v),
        Key::Backspace => (NudgeFormAction::PrevStep, v),
        Key::Char(c) => if c == '1' {
            (NudgeFormAction::SetToolMode(ToolMode::Additive), reset)
        } else if c == '2' {
            (NudgeFormAction::SetToolMode(ToolMode::Exclusive), reset)
        } else if c == 'a' && additive {
            (NudgeFormAction::Updated, picker_opened(v, PermissionMode::AddAllow))
        } else if c == 'd' && additive {
            (NudgeFormAction::Updated, picker_opened(v, PermissionMode::AddDeny))
        } else if c == 'o' && !additive {
            (NudgeFormAction::Updated, picker_opened(v, PermissionMode::AddOnly))
        } else if c == 'x' {
            if info.has_configured_tools {
                (
                    NudgeFormAction::Updated,
                    NudgeFormView { selecting_configured: true, configured_tool_index: 0, ..v },
                )
            } else {
                (NudgeFormAction::Ignore, v)
            }
        } else {
            (NudgeFormAction::Ignore, v)
        },
        _ => (NudgeFormAction::Ignore, v),
    }
}

/// The key's action and the form after it while the tool picker is open:
/// Escape closes it, Enter adds the tool under the cursor (if the filter
/// left one) and closes it, the arrows move within the filtered tools, and
/// typing edits the filter, which puts the cursor back at the top.
pub open spec fn picker_step(v: NudgeFormView, key: Key, info: ToolListInfo) -> (
    NudgeFormAction,
    NudgeFormView,
) {
    match key {
        Key::Esc => (NudgeFormAction::Updated, picker_closed(v)),
        Key::Enter => (
            if v.tool_index < info.filtered_tool_count {
                NudgeFormAction::AddTool { mode: v.permission_mode, index: v.tool_index }
            } else {
                NudgeFormAction::Updated
            },
            picker_closed(v),
        ),
        Key::Up => (
            NudgeFormAction::Updated,
            if v.tool_index > 0 {
                NudgeFormView { tool_index: (v.tool_index - 1) as usize, ..v }
            } else {
                v
            },
        ),
        Key::Down => (
            NudgeFormAction::Updated,
            if info.filtered_tool_count > 0 && v.tool_index + 1 < info.filtered_tool_count {
                NudgeFormView { tool_index: (v.tool_index + 1) as usize, ..v }
            } else {
                v
            },
        ),
        Key::Char(c) => (
            NudgeFormAction::Updated,
            NudgeFormView { tool_filter: v.tool_filter.push(c), tool_index: 0, tool_scroll: 0, ..v },
        ),
        Key::Backspace => (
            NudgeFormAction::Updated,
            NudgeFormView {
                tool_filter: without_last(v.tool_filter),
                tool_index: 0,
                tool_scroll: 0,
                ..v
            },
        ),
        _ => (NudgeFormAction::Ignore, v),
    }
}

/// The key's action and the form after it in the review step.
pub open spec fn review_step(v: NudgeFormView, key: Key) -> (NudgeFormAction, NudgeFormView) {
    match key {
        Key::Esc => (NudgeFormAction::Close, v),
        Key::Backspace => (NudgeFormAction::PrevStep, v),
        Key::Enter => (NudgeFormAction::Submit, v),
        Key::Up => (
            NudgeFormAction::Updated,
            if v.review_scroll > 0 {
                NudgeFormView { review_scroll: (v.review_scroll - 1) as usize, ..v }
            } else {
                v
            },
        ),
        Key::Down => (
            NudgeFormAction::Updated,
            NudgeFormView { review_scroll: (v.review_scroll + 1) as usize, ..v },
        ),
        _ => (NudgeFormAction::Ignore, v),
    }
}

/// What a key does in the nudge wizard: the action asked of the
/// application and the form after the key.
pub open spec fn nudge_form_step(v: NudgeFormView, key: Key, shift: bool, info: ToolListInfo) -> (
    NudgeFormAction,
    NudgeFormView,
) {
    match v.step {
        NudgeStep::Basics => (basics_action(v, key), basics_after(v, key)),
        NudgeStep::Content => (content_action(key, shift), v),
        NudgeStep::Permissions => if v.permission_mode == PermissionMode::Browse {
            if v.selecting_configured {
                (
                    removal_action(key),
                    if key == Key::Esc {
                        NudgeFormView { selecting_configured: false, ..v }
                    } else {
                        v
                    },
                )
            } else {
                browse_step(v, key, info)
            }
        } else {
            picker_step(v, key, info)
        },
        NudgeStep::Review => review_step(v, key),
    }
}

fn clear_picker(form: &mut NudgeForm, mode: PermissionMode)
    ensures
        final(form)@ == picker_opened(old(form)@, mode),
{
    form.permission_mode = mode;
    form.tool_filter = String::new();
    form.tool_index = 0;
    form.tool_scroll = 0;
}

fn basics_key(form: &mut NudgeForm, key: Key) -> (r: NudgeFormAction)
    requires
        old(form).step == NudgeStep::Basics,
    ensures
        r == basics_action(old(form)@, key),
        final(form)@ == basics_after(old(form)@, key),
{
    match key {
        Key::Esc => NudgeFormAction::Close,
        Key::Tab => NudgeFormAction::FocusNext,
        Key::BackTab => NudgeFormAction::FocusPrev,
        Key::Enter => if form.focus == NudgeFocus::Hashtags {
            NudgeFormAction::AddHashtag
        } else {
            NudgeFormAction::NextStepIfReady
        },
        Key::Char(c) => if c == ' ' && form.focus == NudgeFocus::Hashtags {
            NudgeFormAction::AddHashtag
        } else {
            match form.focus {
                NudgeFocus::Title => push_char(&mut form.title, c),
                NudgeFocus::Description => push_char(&mut form.description, c),
                NudgeFocus::Hashtags => push_char(&mut form.hashtag_input, c),
            }
            NudgeFormAction::Updated
        },
        Key::Backspace => {
            match form.focus {
                NudgeFocus::Title => pop_last(&mut form.title),
                NudgeFocus::Description => pop_last(&mut form.description),
                NudgeFocus::Hashtags => if form.hashtag_input.as_str().unicode_len() == 0 {
                    let ghost before = form.hashtags@;
                    if form.hashtags.len() > 0 {
                        form.hashtags.pop();
                        proof {
                            assert(string_views(form.hashtags@) =~= string_views(before).drop_last());
                        }
                    }
                } else {
                    pop_last(&mut form.hashtag_input);
                },
            }
            NudgeFormAction::Updated
        },
        _ => NudgeFormAction::Ignore,
    }
}

fn content_key(key: Key, shift: bool) -> (r: NudgeFormAction)
    ensures
        r == content_action(key, shift),
{
    match key {
        Key::Esc => NudgeFormAction::Close,
        Key::Tab => if shift {
            NudgeFormAction::PrevStep
        } else {
            NudgeFormAction::NextStepIfReady
        },
        Key::Enter => NudgeFormAction::InsertContentChar('\n'),
        Key::Backspace => NudgeFormAction::BackspaceContent,
        Key::Up => NudgeFormAction::MoveContentCursor(CursorMove::Up),
        Key::Down => NudgeFormAction::MoveContentCursor(CursorMove::Down),
        Key::Left => NudgeFormAction::MoveContentCursor(CursorMove::Left),
        Key::Right => NudgeFormAction::MoveContentCursor(CursorMove::Right),
        Key::Char(c) => NudgeFormAction::InsertContentChar(c),
        _ => NudgeFormAction::Ignore,
    }
}

fn removal_key(form: &mut NudgeForm, key: Key) -> (r: NudgeFormAction)
    ensures
        r == removal_action(key),
        final(form)@ == if key == Key::Esc {
            NudgeFormView { selecting_configured: false, ..old(form)@ }
        } else {
            old(form)@
        },
{
    match key {
        Key::Esc => {
            form.selecting_configured = false;
            NudgeFormAction::Updated
        },
        Key::Up => NudgeFormAction::ConfiguredToolUp,
        Key::Down => NudgeFormAction::ConfiguredToolDown,
        Key::Char(c) => if c == 'x' {
            NudgeFormAction::RemoveConfiguredTool
        } else {
            NudgeFormAction::Ignore
        },
        Key::Delete => NudgeFormAction::RemoveConfiguredTool,
        Key::Enter => NudgeFormAction::RemoveConfiguredTool,
        _ => NudgeFormAction::Ignore,
    }
}

fn browse_key(form: &mut NudgeForm, key: Key, info: ToolListInfo) -> (r: NudgeFormAction)
    ensures
        (r, final(form)@) == browse_step(old(form)@, key, info),
{
    let additive = form.permissions.mode == ToolMode::Additive;
    match key {
        Key::Esc => NudgeFormAction::Close,
        Key::Enter => NudgeFormAction::NextStep,
        Key::Backspace => NudgeFormAction::PrevStep,
        Key::Char(c) => if c == '1' || c == '2' {
            form.selecting_configured = false;
            form.configured_tool_index = 0;
            if c == '1' {
                NudgeFormAction::SetToolMode(ToolMode::Additive)
            } else {
                NudgeFormAction::SetToolMode(ToolMode::Exclusive)
            }
        } else if c == 'a' && additive {
            clear_picker(form, PermissionMode::AddAllow);
            NudgeFormAction::Updated
        } else if c == 'd' && additive {
            clear_picker(form, PermissionMode::AddDeny);
            NudgeFormAction::Updated
        } else if c == 'o' && !additive {
            clear_picker(form, PermissionMode::AddOnly);
            NudgeFormAction::Updated
        } else if c == 'x' {
            if info.has_configured_tools {
                form.selecting_configured = true;
                form.configured_tool_index = 0;
                NudgeFormAction::Updated
            } else {
                NudgeFormAction::Ignore
            }
        } else {
            NudgeFormAction::Ignore
        },
        _ => NudgeFormAction::Ignore,
    }
}

fn picker_key(form: &mut NudgeForm, key: Key, info: ToolListInfo) -> (r: NudgeFormAction)
    ensures
        (r, final(form)@) == picker_step(old(form)@, key, info),
{
    match key {
        Key::Esc => {
            clear_picker(form, PermissionMode::Browse);
            NudgeFormAction::Updated
        },
        Key::Enter => {
            let r = if form.tool_index < info.filtered_tool_count {
                NudgeFormAction::AddTool { mode: form.permission_mode, index: form.tool_index }
            } else {
                NudgeFormAction::Updated
            };
            clear_picker(form, PermissionMode::Browse);
            r
        },
        Key::Up => {
            if form.tool_index > 0 {
                form.tool_index = form.tool_index - 1;
            }
            NudgeFormAction::Updated
        },
        Key::Down => {
            if info.filtered_tool_count > 0 && form.tool_index < info.filtered_tool_count - 1 {
                form.tool_index = form.tool_index + 1;
            }
            NudgeFormAction::Updated
        },
        Key::Char(c) => {
            push_char(&mut form.tool_filter, c);
            form.tool_index = 0;
            form.tool_scroll = 0;
            NudgeFormAction::Updated
        },
        Key::Backspace => {
            pop_last(&mut form.tool_filter);
            form.tool_index = 0;
            form.tool_scroll = 0;
            NudgeFormAction::Updated
        },
        _ => NudgeFormAction::Ignore,
    }
}

fn review_key(form: &mut NudgeForm, key: Key) -> (r: NudgeFormAction)
    requires
        key == Key::Down ==> old(form).review_scroll < usize::MAX,
    ensures
        (r, final(form)@) == review_step(old(form)@, key),
{
    match key {
        Key::Esc => NudgeFormAction::Close,
        Key::Backspace => NudgeFormAction::PrevStep,
        Key::Enter => NudgeFormAction::Submit,
        Key::Up => {
            if form.review_scroll > 0 {
                form.review_scroll = form.review_scroll - 1;
            }
            NudgeFormAction::Updated
        },
        Key::Down => {
            form.review_scroll = form.review_scroll + 1;
            NudgeFormAction::Updated
        },
        _ => NudgeFormAction::Ignore,
    }
}

/// Handles a key in the nudge wizard: edits the form where the key does
/// so and returns what else the application is to do. `shift` says whether
/// Shift was held; `info` describes the tool lists of the permissions
/// step. The review can only scroll down while its offset fits a `usize`.
pub fn handle_nudge_form_key(form: &mut NudgeForm, key: Key, shift: bool, info: ToolListInfo) -> (r:
    NudgeFormAction)
    requires
        old(form).step == NudgeStep::Review && key == Key::Down ==> old(form).review_scroll
            < usize::MAX,
    ensures
        (r, final(form)@) == nudge_form_step(old(form)@, key, shift, info),
{
    match form.step {
        NudgeStep::Basics => basics_key(form, key),
        NudgeStep::Content => content_key(key, shift),
        NudgeStep::Permissions => if form.permission_mode == PermissionMode::Browse {
            if form.selecting_configured {
                removal_key(form, key)
            } else {
                browse_key(form, key, info)
            }
        } else {
            picker_key(form, key, info)
        },
        NudgeStep::Review => review_key(form, key),
    }
}

/// After a configured tool was removed: browsing for removal ends when no
/// configured tool is left.
pub fn after_configured_tool_removed(form: &mut NudgeForm, remaining: usize)
    ensures
        final(form)@ == if remaining == 0 {
            NudgeFormView { selecting_configured: false, ..old(form)@ }
        } else {
            old(form)@
        },
{
    if remaining == 0 {
        form.selecting_configured = false;
    }
}

/// What Enter in the review step leads to.
#[derive(Debug, Clone, PartialEq, Eq)]
pub enum ReviewOutcome {
    /// The nudge has an error: show this status and stay in the review.
    Blocked(String),
    /// Publish the nudge and close the wizard.
    Publish,
    /// Nothing happens.
    Stay,
}

/// Decides Enter in the review step from the form's first submission error
/// and whether it can be submitted: an error blocks with
/// `Cannot submit: <error>`, otherwise a submittable nudge is published.
pub fn review_submission(first_error: Option<&str>, can_submit: bool) -> (r: ReviewOutcome)
    ensures
        match first_error {
            Some(e) => r matches ReviewOutcome::Blocked(m) && m@ == "Cannot submit: "@ + e@,
            None => r == if can_submit {
                ReviewOutcome::Publish
            } else {
                ReviewOutcome::Stay
            },
        },
{
    match first_error {
        Some(e) => {
            let mut m = String::from_str("Cannot submit: ");
            m.append(e);
            ReviewOutcome::Blocked(m)
        },
        None => if can_submit {
            ReviewOutcome::Publish
        } else {
            ReviewOutcome::Stay
        },
    }
}

/// The nudge to publish.
#[derive(Debug, Clone, PartialEq, Eq)]
pub struct NudgeRequest {
    pub title: String,
    pub description: String,
    pub content: String,
    pub hashtags: Vec<String>,
    pub allow_tools: Vec<String>,
    pub deny_tools: Vec<String>,
    pub only_tools: Vec<String>,
}

/// The allowed tools that are not denied, in order: a denial wins over an
/// allowance.
pub open spec fn allowed_not_denied(allow: Seq<Seq<char>>, deny: Seq<Seq<char>>) -> Seq<Seq<char>> {
    allow.filter(|t: Seq<char>| !deny.contains(t))
}

/// A copy of a list of strings.
fn copy_strings(v: &Vec<String>) -> (r: Vec<String>)
    ensures
        string_views(r@) == string_views(v@),
{
    let mut r: Vec<String> = Vec::new();
    let mut i: usize = 0;
    while i < v.len()
        invariant
            i <= v@.len(),
            string_views(r@) == string_views(v@.subrange(0, i as int)),
        decreases v@.len() - i,
    {
        r.push(String::from_str(v[i].as_str()));
        proof {
            assert(string_views(v@.subrange(0, i + 1)) =~= string_views(v@.subrange(0, i as int)).push(v@[i as int]@));
        }
        i = i + 1;
    }
    proof {
        assert(v@.subrange(0, v@.len() as int) =~= v@);
    }
    r
}

/// Whether a list of strings holds `t`.
fn holds(v: &Vec<String>, t: &str) -> (r: bool)
    ensures
        r == string_views(v@).contains(t@),
{
    let mut i: usize = 0;
    while i < v.len()
        invariant
            i <= v@.len(),
            forall|k: int| 0 <= k < i ==> v@[k]@ != t@,
        decreases v@.len() - i,
    {
        if str_eq(v[i].as_str(), t) {
            assert(string_views(v@)[i as int] == t@);
            return true;
        }
        i = i + 1;
    }
    proof {
        if string_views(v@).contains(t@) {
            let k = choose|k: int| 0 <= k < string_views(v@).len() && string_views(v@)[k] == t@;
            assert(v@[k]@ == t@);
        }
    }
    false
}

/// The request a nudge is published with: its texts and hashtags, and the
/// tool lists of its mode only. An exclusive nudge sends its only-tools; an
/// additive one sends its denied tools and the allowed tools not denied.
pub fn nudge_request(form: &NudgeForm) -> (r: NudgeRequest)
    ensures
        r.title@ == form.title@,
        r.description@ == form.description@,
        r.content@ == form.content@,
        string_views(r.hashtags@) == string_views(form.hashtags@),
        form.permissions.mode == ToolMode::Exclusive ==> {
            &&& r.allow_tools@.len() == 0
            &&& r.deny_tools@.len() == 0
            &&& string_views(r.only_tools@) == string_views(form.permissions.only_tools@)
        },
        form.permissions.mode == ToolMode::Additive ==> {
            &&& string_views(r.allow_tools@) == allowed_not_denied(
                string_views(form.permissions.allow_tools@),
                string_views(form.permissions.deny_tools@),
            )
            &&& string_views(r.deny_tools@) == string_views(form.permissions.deny_tools@)
            &&& r.only_tools@.len() == 0
        },
{
    let p = &form.permissions;
    let (allow, deny, only) = if p.mode == ToolMode::Exclusive {
        (Vec::new(), Vec::new(), copy_strings(&p.only_tools))
    } else {
        let ghost deny_views = string_views(p.deny_tools@);
        let ghost keep = |t: Seq<char>| !deny_views.contains(t);
        let mut allow: Vec<String> = Vec::new();
        let mut i: usize = 0;
        while i < p.allow_tools.len()
            invariant
                i <= p.allow_tools@.len(),
                deny_views == string_views(p.deny_tools@),
                keep == (|t: Seq<char>| !deny_views.contains(t)),
                string_views(allow@) == string_views(p.allow_tools@.subrange(0, i as int)).filter(
                    keep,
                ),
            decreases p.allow_tools@.len() - i,
        {
            let t = p.allow_tools[i].as_str();
            proof {
                assert(string_views(p.allow_tools@.subrange(0, i + 1)) =~= string_views(
                    p.allow_tools@.subrange(0, i as int),
                ).push(t@));
                crate::seq_facts::lemma_filter_push(
                    string_views(p.allow_tools@.subrange(0, i as int)),
                    keep,
                    t@,
                );
            }
            if !holds(&p.deny_tools, t) {
                allow.push(String::from_str(t));
                proof {
                    assert(string_views(allow@) =~= string_views(
                        p.allow_tools@.subrange(0, i as int),
                    ).filter(keep).push(t@));
                }
            }
            i = i + 1;
        }
        proof {
            assert(p.allow_tools@.subrange(0, p.allow_tools@.len() as int) =~= p.allow_tools@);
        }
        (allow, copy_strings(&p.deny_tools), Vec::new())
    };
    NudgeRequest {
        title: String::from_str(form.title.as_str()),
        description: String::from_str(form.description.as_str()),
        content: String::from_str(form.content.as_str()),
        hashtags: copy_strings(&form.hashtags),
        allow_tools: allow,
        deny_tools: deny,
        only_tools: only,
    }
}

/// A published nudge never both allows and denies a tool: denials win.
pub proof fn lemma_denial_wins(allow: Seq<Seq<char>>, deny: Seq<Seq<char>>, t: Seq<char>)
    ensures
        allowed_not_denied(allow, deny).contains(t) <==> (allow.contains(t) && !deny.contains(t)),
{
    let f = |x: Seq<char>| !deny.contains(x);
    let r = allow.filter(f);
    if r.contains(t) {
        let k = choose|k: int| 0 <= k < r.len() && r[k] == t;
        allow.lemma_filter_contains_rev(f, t);
        assert(f(r[k]));
    }
    if allow.contains(t) && !deny.contains(t) {
        let k = choose|k: int| 0 <= k < allow.len() && allow[k] == t;
        allow.lemma_filter_contains(f, k);
    }
}

/// The status after publishing a nudge titled `title` was attempted.
pub open spec fn published_status(title: Seq<char>, connected: bool, error: Option<Seq<char>>) -> Seq<
    char,
> {
    if !connected {
        "Error: Not connected to backend"@
    } else {
        match error {
            Some(e) => "Failed to create nudge: "@ + e,
            None => "Nudge '"@ + title + "' created"@,
        }
    }
}

/// The status after publishing was attempted: not connected, failed with
/// `error`, or created.
pub fn nudge_published(title: &str, connected: bool, error: Option<&str>) -> (r: String)
    ensures
        r@ == published_status(
            title@,
            connected,
            match error {
                Some(e) => Some(e@),
                None => None,
            },
        ),
{
    if !connected {
        String::from_str("Error: Not connected to backend")
    } else {
        match error {
            Some(e) => {
                let mut r = String::from_str("Failed to create nudge: ");
                r.append(e);
                r
            },
            None => {
                let mut r = String::from_str("Nudge '");
                r.append(title);
                r.append("' created");
                r
            },
        }
    }
}

/// What a key does in the nudge list.
#[derive(Debug, Clone, Copy, PartialEq, Eq, Structural)]
pub enum NudgeListStep {
    Close,
    MoveUp,
    /// Move down within this many nudges.
    MoveDown(usize),
    /// Open an empty wizard.
    New,
    /// Open the wizard filled from the selected nudge.
    CopySelected,
    /// Ask to delete the selected nudge.
    DeleteSelected,
    /// Show the selected nudge.
    ViewSelected,
    AddFilterChar(char),
    BackspaceFilter,
    Ignore,
}

/// What `key` does in the nudge list of `count` nudges; `ctrl_or_alt` when
/// Control or Alt was held, which keeps a character out of the filter.
pub open spec fn nudge_list_step(key: Key, ctrl_or_alt: bool, count: usize) -> NudgeListStep {
    match key {
        Key::Esc => NudgeListStep::Close,
        Key::Up => NudgeListStep::MoveUp,
        Key::Down => NudgeListStep::MoveDown(count),
        Key::Enter => NudgeListStep::ViewSelected,
        Key::Backspace => NudgeListStep::BackspaceFilter,
        Key::Char(c) => if c == 'k' {
            NudgeListStep::MoveUp
        } else if c == 'j' {
            NudgeListStep::MoveDown(count)
        } else if c == 'n' {
            NudgeListStep::New
        } else if c == 'c' {
            NudgeListStep::CopySelected
        } else if c == 'd' {
            NudgeListStep::DeleteSelected
        } else if !ctrl_or_alt {
            NudgeListStep::AddFilterChar(c)
        } else {
            NudgeListStep::Ignore
        },
        _ => NudgeListStep::Ignore,
    }
}

/// Handles a key in the nudge list.
pub fn handle_nudge_list_key(key: Key, ctrl_or_alt: bool, count: usize) -> (r: NudgeListStep)
    ensures
        r == nudge_list_step(key, ctrl_or_alt, count),
{
    match key {
        Key::Esc => NudgeListStep::Close,
        Key::Up => NudgeListStep::MoveUp,
        Key::Down => NudgeListStep::MoveDown(count),
        Key::Enter => NudgeListStep::ViewSelected,
        Key::Backspace => NudgeListStep::BackspaceFilter,
        Key::Char(c) => if c == 'k' {
            NudgeListStep::MoveUp
        } else if c == 'j' {
            NudgeListStep::MoveDown(count)
        } else if c == 'n' {
            NudgeListStep::New
        } else if c == 'c' {
            NudgeListStep::CopySelected
        } else if c == 'd' {
            NudgeListStep::DeleteSelected
        } else if !ctrl_or_alt {
            NudgeListStep::AddFilterChar(c)
        } else {
            NudgeListStep::Ignore
        },
        _ => NudgeListStep::Ignore,
    }
}

/// The lines of the detail view that fit on screen.
pub const DETAIL_VISIBLE_LINES: usize = 20;

/// What a key does in the nudge detail view.
#[derive(Debug, Clone, Copy, PartialEq, Eq, Structural)]
pub enum NudgeDetailStep {
    BackToList,
    ScrollUp,
    /// Scroll down, no further than this offset.
    ScrollDown(usize),
    /// Open the wizard filled from this nudge.
    CopyToNewNudge,
    ConfirmDelete,
    /// Copy the nudge's id to the clipboard.
    CopyId,
    Ignore,
}

/// The furthest the detail view scrolls: the lines of the content beyond
/// one screen, or none when the nudge is gone.
pub open spec fn detail_max_scroll(content_lines: Option<usize>) -> usize {
    match content_lines {
        Some(n) => if n > DETAIL_VISIBLE_LINES {
            (n - DETAIL_VISIBLE_LINES) as usize
        } else {
            0
        },
        None => 0,
    }
}

/// Handles a key in the nudge detail view; `content_lines` is the line
/// count of the nudge's content, if the nudge still exists.
pub fn handle_nudge_detail_key(key: Key, content_lines: Option<usize>) -> (r: NudgeDetailStep)
    ensures
        r == match key {
            Key::Esc => NudgeDetailStep::BackToList,
            Key::Up => NudgeDetailStep::ScrollUp,
            Key::Down => NudgeDetailStep::ScrollDown(detail_max_scroll(content_lines)),
            Key::Char(c) => if c == 'k' {
                NudgeDetailStep::ScrollUp
            } else if c == 'j' {
                NudgeDetailStep::ScrollDown(detail_max_scroll(content_lines))
            } else if c == 'e' {
                NudgeDetailStep::CopyToNewNudge
            } else if c == 'd' {
                NudgeDetailStep::ConfirmDelete
            } else if c == 'c' {
                NudgeDetailStep::CopyId
            } else {
                NudgeDetailStep::Ignore
            },
            _ => NudgeDetailStep::Ignore,
        },
{
    let max_scroll = match content_lines {
        Some(n) => n.saturating_sub(DETAIL_VISIBLE_LINES),
        None => 0,
    };
    match key {
        Key::Esc => NudgeDetailStep::BackToList,
        Key::Up => NudgeDetailStep::ScrollUp,
        Key::Down => NudgeDetailStep::ScrollDown(max_scroll),
        Key::Char(c) => if c == 'k' {
            NudgeDetailStep::ScrollUp
        } else if c == 'j' {
            NudgeDetailStep::ScrollDown(max_scroll)
        } else if c == 'e' {
            NudgeDetailStep::CopyToNewNudge
        } else if c == 'd' {
            NudgeDetailStep::ConfirmDelete
        } else if c == 'c' {
            NudgeDetailStep::CopyId
        } else {
            NudgeDetailStep::Ignore
        },
        _ => NudgeDetailStep::Ignore,
    }
}

/// What a key does in the delete confirmation.
#[derive(Debug, Clone, Copy, PartialEq, Eq, Structural)]
pub enum DeleteConfirmStep {
    /// Back to the list without deleting.
    BackToList,
    /// Switch between Cancel and Delete.
    Toggle,
    /// Delete the nudge, then go back to the list.
    DeleteAndBack,
    Ignore,
}

/// Handles a key in the delete confirmation, where row 1 is Delete: Enter
/// deletes only with that row selected, `d` deletes at once.
pub fn handle_nudge_delete_confirm_key(key: Key, selected_index: usize) -> (r: DeleteConfirmStep)
    ensures
        r == match key {
            Key::Esc => DeleteConfirmStep::BackToList,
            Key::Up => DeleteConfirmStep::Toggle,
            Key::Down => DeleteConfirmStep::Toggle,
            Key::Enter => if selected_index == 1 {
                DeleteConfirmStep::DeleteAndBack
            } else {
                DeleteConfirmStep::BackToList
            },
            Key::Char(c) => if c == 'd' {
                DeleteConfirmStep::DeleteAndBack
            } else {
                DeleteConfirmStep::Ignore
            },
            _ => DeleteConfirmStep::Ignore,
        },
{
    match key {
        Key::Esc => DeleteConfirmStep::BackToList,
        Key::Up | Key::Down => DeleteConfirmStep::Toggle,
        Key::Enter => if selected_index == 1 {
            DeleteConfirmStep::DeleteAndBack
        } else {
            DeleteConfirmStep::BackToList
        },
        Key::Char(c) => if c == 'd' {
            DeleteConfirmStep::DeleteAndBack
        } else {
            DeleteConfirmStep::Ignore
        },
        _ => DeleteConfirmStep::Ignore,
    }
}

/// The status after deleting a nudge was attempted: none when the backend
/// is not connected, else the error or the deletion.
pub fn nudge_deleted_status(connected: bool, error: Option<&str>) -> (r: Option<String>)
    ensures
        match r {
            None => !connected,
            Some(m) => connected && m@ == match error {
                Some(e) => "Failed to delete nudge: "@ + e@,
                None => "Nudge deleted"@,
            },
        },
{
    if !connected {
        None
    } else {
        match error {
            Some(e) => {
                let mut m = String::from_str("Failed to delete nudge: ");
                m.append(e);
                Some(m)
            },
            None => Some(String::from_str("Nudge deleted")),
        }
    }
}

/// A nudge as the list shows, filters and orders it.
#[derive(Debug, Clone)]
pub struct NudgeSummary {
    pub id: String,
    pub title: String,
    pub description: String,
    pub content: String,
    pub hashtags: Vec<String>,
    /// Creation time, in seconds.
    pub created_at: u64,
}

/// The lower-case form of a text, as `str::to_lowercase` gives it.
pub uninterp spec fn lowercase(s: Seq<char>) -> Seq<char>;

/// Lower-cases a text with `str::to_lowercase`. The contract names the
/// result `lowercase` and states nothing more of Unicode's case mapping.
#[verifier::external_body]
pub(crate) fn to_lowercase(s: &str) -> (r: String)
    ensures
        r@ == lowercase(s@),
{
    s.to_lowercase()
}

/// Whether `needle` occurs in `hay`.
pub open spec fn text_contains(hay: Seq<char>, needle: Seq<char>) -> bool {
    exists|i: int|
        0 <= i && i + needle.len() <= hay.len() && #[trigger] hay.subrange(i, i + needle.len())
            == needle
}

/// Whether `needle` occurs in `hay`, as `str::contains` tells.
pub fn contains_text(hay: &str, needle: &str) -> (r: bool)
    ensures
        r == text_contains(hay@, needle@),
{
    let n = hay.unicode_len();
    let m = needle.unicode_len();
    if m > n {
        return false;
    }
    if m == 0 {
        assert(hay@.subrange(0int, 0int + needle@.len()) =~= needle@);
        return true;
    }
    let mut i: usize = 0;
    while i <= n - m
        invariant
            n == hay@.len(),
            m == needle@.len(),
            1 <= m <= n,
            i <= n - m + 1,
            forall|k: int| 0 <= k < i ==> #[trigger] hay@.subrange(k, k + m) != needle@,
        decreases n - m + 1 - i,
    {
        if str_eq(hay.substring_char(i, i + m), needle) {
            return true;
        }
        i = i + 1;
    }
    false
}

/// Whether a nudge passes the list's filter: every nudge passes an empty
/// filter; otherwise the lower-cased filter occurs in the lower-cased
/// title, description, content or one of the hashtags.
pub open spec fn nudge_matches(n: NudgeSummary, filter: Seq<char>) -> bool {
    let f = lowercase(filter);
    ||| filter.len() == 0
    ||| text_contains(lowercase(n.title@), f)
    ||| text_contains(lowercase(n.description@), f)
    ||| text_contains(lowercase(n.content@), f)
    ||| exists|k: int|
        0 <= k < n.hashtags@.len() && text_contains(lowercase(#[trigger] n.hashtags@[k]@), f)
}

/// A nudge's creation time and id, by which the list orders and finds it.
pub open spec fn entry_of(n: NudgeSummary) -> (u64, Seq<char>) {
    (n.created_at, n.id@)
}

/// The entries of the nudges that pass the filter, in their given order.
pub open spec fn matching_entries(nudges: Seq<NudgeSummary>, filter: Seq<char>) -> Seq<(u64, Seq<char>)> {
    nudges.filter(|n: NudgeSummary| nudge_matches(n, filter)).map_values(|n: NudgeSummary| entry_of(n))
}

/// Entries created at time `t`.
pub open spec fn created_at_time(t: u64) -> spec_fn((u64, Seq<char>)) -> bool {
    |e: (u64, Seq<char>)| e.0 == t
}

/// `r` orders `entries` newest first, keeping the given order among
/// entries created at the same time (a stable sort).
pub open spec fn newest_first(r: Seq<(u64, Seq<char>)>, entries: Seq<(u64, Seq<char>)>) -> bool {
    &&& forall|i: int, j: int| 0 <= i < j < r.len() ==> #[trigger] r[i].0 >= #[trigger] r[j].0
    &&& forall|t: u64| #[trigger]
        r.filter(created_at_time(t)) == entries.filter(created_at_time(t))
}

/// Inserting `x` after every entry at least as new and before the first
/// older one keeps the order newest first.
proof fn lemma_insert_keeps_order(out: Seq<(u64, Seq<char>)>, x: (u64, Seq<char>), p: int)
    requires
        0 <= p <= out.len(),
        forall|i: int, j: int| 0 <= i < j < out.len() ==> #[trigger] out[i].0 >= #[trigger] out[j].0,
        forall|k: int| 0 <= k < p ==> #[trigger] out[k].0 >= x.0,
        forall|k: int| p <= k < out.len() ==> #[trigger] out[k].0 < x.0,
    ensures
        forall|i: int, j: int|
            0 <= i < j < out.insert(p, x).len() ==> #[trigger] out.insert(p, x)[i].0
                >= #[trigger] out.insert(p, x)[j].0,
{
    let n = out.insert(p, x);
    assert forall|i: int, j: int| 0 <= i < j < n.len() implies #[trigger] n[i].0 >= #[trigger] n[j].0 by {
        if j < p {
            assert(n[i] == out[i] && n[j] == out[j]);
        } else if j == p {
            assert(n[i] == out[i]);
        } else if i == p {
            assert(n[j] == out[j - 1]);
        } else if i < p {
            assert(n[i] == out[i] && n[j] == out[j - 1]);
        } else {
            assert(n[i] == out[i - 1] && n[j] == out[j - 1]);
        }
    }
}

/// Inserting `x` before the first older entry appends it to the entries
/// created at its own time and leaves the others.
proof fn lemma_insert_keeps_groups(
    out: Seq<(u64, Seq<char>)>,
    x: (u64, Seq<char>),
    p: int,
    done: Seq<(u64, Seq<char>)>,
    t: u64,
)
    requires
        0 <= p <= out.len(),
        out.filter(created_at_time(t)) == done.filter(created_at_time(t)),
        forall|k: int| p <= k < out.len() ==> #[trigger] out[k].0 < x.0,
    ensures
        out.insert(p, x).filter(created_at_time(t)) == done.push(x).filter(created_at_time(t)),
{
    let n = out.insert(p, x);
    let a = out.subrange(0, p);
    let b = out.subrange(p, out.len() as int);
    assert(n =~= a.push(x) + b);
    assert(out =~= a + b);
    let f = created_at_time(t);
    Seq::filter_distributes_over_add(a.push(x), b, f);
    Seq::filter_distributes_over_add(a, b, f);
    lemma_filter_push(a, f, x);
    lemma_filter_push(done, f, x);
    if f(x) {
        assert forall|k: int| 0 <= k < b.len() implies !f(#[trigger] b[k]) by {
            assert(b[k] == out[k + p]);
        }
        lemma_filter_none(b, f);
        assert(a.filter(f).push(x) + b.filter(f) =~= a.filter(f).push(x));
        assert(a.filter(f) + b.filter(f) =~= a.filter(f));
    }
}

/// Inserting `x` after every entry at least as new and before the first
/// older one keeps the order newest first and stable.
proof fn lemma_insert_newest(
    out: Seq<(u64, Seq<char>)>,
    x: (u64, Seq<char>),
    p: int,
    done: Seq<(u64, Seq<char>)>,
)
    requires
        0 <= p <= out.len(),
        newest_first(out, done),
        forall|k: int| 0 <= k < p ==> #[trigger] out[k].0 >= x.0,
        forall|k: int| p <= k < out.len() ==> #[trigger] out[k].0 < x.0,
    ensures
        newest_first(out.insert(p, x), done.push(x)),
{
    lemma_insert_keeps_order(out, x, p);
    assert forall|t: u64| #[trigger]
        out.insert(p, x).filter(created_at_time(t)) == done.push(x).filter(created_at_time(t)) by {
        lemma_insert_keeps_groups(out, x, p, done, t);
    }
}

/// The views of a list of entries.
pub open spec fn entry_views(v: Seq<(u64, String)>) -> Seq<(u64, Seq<char>)> {
    v.map_values(|e: (u64, String)| (e.0, e.1@))
}

/// Orders entries newest first, stably, as `sort_by` on descending
/// creation times does.
pub fn sort_newest_first(entries: Vec<(u64, String)>) -> (r: Vec<(u64, String)>)
    ensures
        newest_first(entry_views(r@), entry_views(entries@)),
{
    let mut out: Vec<(u64, String)> = Vec::new();
    let mut rest = entries;
    let ghost all = entry_views(rest@);
    let mut i: usize = 0;
    let n = rest.len();
    proof {
        assert forall|t: u64| #[trigger]
            entry_views(out@).filter(created_at_time(t)) == all.take(0).filter(created_at_time(t)) by {
            reveal(Seq::filter);
            assert(all.take(0) =~= Seq::<(u64, Seq<char>)>::empty());
            assert(entry_views(out@) =~= Seq::<(u64, Seq<char>)>::empty());
        }
    }
    while i < n
        invariant
            n == all.len(),
            i <= n,
            rest@.len() == n - i,
            entry_views(rest@) == all.subrange(i as int, n as int),
            newest_first(entry_views(out@), all.take(i as int)),
        decreases n - i,
    {
        let ghost before_rest = rest@;
        let e = rest.remove(0);
        let ghost x = (e.0, e.1@);
        proof {
            assert(entry_views(before_rest)[0] == x);
            assert(x == all[i as int]);
            assert(rest@ =~= before_rest.subrange(1, before_rest.len() as int));
            assert forall|k: int| 0 <= k < rest@.len() implies #[trigger] entry_views(rest@)[k]
                == all.subrange(i + 1, n as int)[k] by {
                assert(rest@[k] == before_rest[k + 1]);
                assert(entry_views(before_rest)[k + 1] == all.subrange(i as int, n as int)[k + 1]);
            }
            assert(entry_views(rest@) =~= all.subrange(i + 1, n as int));
            assert(all.take(i + 1) =~= all.take(i as int).push(x));
        }
        let mut p: usize = 0;
        while p < out.len() && out[p].0 >= e.0
            invariant
                p <= out@.len(),
                forall|k: int| 0 <= k < p ==> (#[trigger] out@[k]).0 >= e.0,
            decreases out@.len() - p,
        {
            p = p + 1;
        }
        let ghost before = entry_views(out@);
        proof {
            assert forall|k: int| p <= k < before.len() implies #[trigger] before[k].0 < x.0 by {
                if k > p {
                    assert(before[p as int].0 >= before[k].0);
                }
            }
            lemma_insert_newest(before, x, p as int, all.take(i as int));
        }
        out.insert(p, e);
        proof {
            assert(entry_views(out@) =~= before.insert(p as int, x));
        }
        i = i + 1;
    }
    proof {
        assert(all.take(n as int) =~= all);
    }
    out
}

/// The id of the nudge at row `index` of the list: the nudges that pass
/// `filter`, newest first; `None` past the end.
pub fn selected_nudge_id(nudges: &Vec<NudgeSummary>, filter: &str, index: usize) -> (r: Option<String>)
    ensures
        exists|order: Seq<(u64, Seq<char>)>|
            #![trigger newest_first(order, matching_entries(nudges@, filter@))]
            newest_first(order, matching_entries(nudges@, filter@)) && match r {
                Some(id) => index < order.len() && id@ == order[index as int].1,
                None => index >= order.len(),
            },
{
    let filter_lower = to_lowercase(filter);
    let filter_empty = filter.unicode_len() == 0;
    let ghost keep = |n: NudgeSummary| nudge_matches(n, filter@);
    let ghost entry = |n: NudgeSummary| entry_of(n);
    let mut entries: Vec<(u64, String)> = Vec::new();
    let mut i: usize = 0;
    while i < nudges.len()
        invariant
            i <= nudges@.len(),
            filter_lower@ == lowercase(filter@),
            filter_empty == (filter@.len() == 0),
            keep == (|n: NudgeSummary| nudge_matches(n, filter@)),
            entry == (|n: NudgeSummary| entry_of(n)),
            entry_views(entries@) == nudges@.subrange(0, i as int).filter(keep).map_values(entry),
        decreases nudges@.len() - i,
    {
        let n = &nudges[i];
        let mut hit = filter_empty;
        if !hit {
            hit = contains_text(to_lowercase(n.title.as_str()).as_str(), filter_lower.as_str())
                || contains_text(to_lowercase(n.description.as_str()).as_str(), filter_lower.as_str())
                || contains_text(to_lowercase(n.content.as_str()).as_str(), filter_lower.as_str());
        }
        if !hit {
            let mut k: usize = 0;
            while k < n.hashtags.len()
                invariant
                    k <= n.hashtags@.len(),
                    filter_lower@ == lowercase(filter@),
                    !hit ==> forall|j: int|
                        0 <= j < k ==> !text_contains(lowercase(#[trigger] n.hashtags@[j]@), lowercase(filter@)),
                    hit ==> exists|j: int|
                        0 <= j < n.hashtags@.len() && text_contains(lowercase(#[trigger] n.hashtags@[j]@), lowercase(filter@)),
                decreases n.hashtags@.len() - k,
            {
                if !hit && contains_text(to_lowercase(n.hashtags[k].as_str()).as_str(), filter_lower.as_str()) {
                    hit = true;
                }
                k = k + 1;
            }
        }
        assert(hit == nudge_matches(*n, filter@));
        proof {
            let pre = nudges@.subrange(0, i as int);
            assert(nudges@.subrange(0, i + 1) =~= pre.push(*n));
            lemma_filter_push(pre, keep, *n);
        }
        if hit {
            let ghost ev = entry_views(entries@);
            entries.push((n.created_at, String::from_str(n.id.as_str())));
            proof {
                let pre = nudges@.subrange(0, i as int);
                assert(entry_views(entries@) =~= ev.push(entry(*n)));
                assert(pre.filter(keep).push(*n).map_values(entry) =~= pre.filter(keep).map_values(
                    entry,
                ).push(entry(*n)));
            }
        } else {
            proof {
                let pre = nudges@.subrange(0, i as int);
                assert(nudges@.subrange(0, i + 1).filter(keep) == pre.filter(keep));
            }
        }
        i = i + 1;
    }
    proof {
        assert(nudges@.subrange(0, nudges@.len() as int) =~= nudges@);
        assert(entry_views(entries@) =~= matching_entries(nudges@, filter@));
    }
    let sorted = sort_newest_first(entries);
    let ghost order = entry_views(sorted@);
    if index < sorted.len() {
        let id = String::from_str(sorted[index].1.as_str());
        assert(order[index as int].1 == sorted@[index as int].1@);
        Some(id)
    } else {
        None
    }
}

} // verus!
