//! Prefix triggers: special characters typed at the start of an empty
//! input (`@` opens the agent selector, `/` opens the nudge selector).
//!
//! The library decides whether a typed character is a trigger; the
//! application then opens the selector that the trigger names.

use vstd::prelude::*;

verus! {

/// A prefix trigger action, chosen when a specific character is typed at
/// the start of an empty input.
#[derive(Debug, Clone, Copy, PartialEq, Eq, Structural)]
pub enum PrefixTrigger {
    /// `@` - open the agent selector modal
    AgentSelector,
    /// `/` - open the nudge selector modal
    NudgeSelector,
}

/// The trigger that a character stands for, if any.
pub open spec fn trigger_for_char(c: char) -> Option<PrefixTrigger> {
    if c == '@' {
        Some(PrefixTrigger::AgentSelector)
    } else if c == '/' {
        Some(PrefixTrigger::NudgeSelector)
    } else {
        None
    }
}

/// The character that fires a trigger.
pub open spec fn char_of_trigger(t: PrefixTrigger) -> char {
    match t {
        PrefixTrigger::AgentSelector => '@',
        PrefixTrigger::NudgeSelector => '/',
    }
}

/// Whether an input with this text and attachment state is empty enough
/// for prefix triggers to apply.
pub open spec fn input_is_blank(text: Seq<char>, has_attachments: bool) -> bool {
    text.len() == 0 && !has_attachments
}

impl PrefixTrigger {
    /// Maps a character to its prefix trigger, or `None` for ordinary input.
    pub fn from_char(c: char) -> (r: Option<PrefixTrigger>)
        ensures
            r == trigger_for_char(c),
    {
        if c == '@' {
            Some(PrefixTrigger::AgentSelector)
        } else if c == '/' {
            Some(PrefixTrigger::NudgeSelector)
        } else {
            None
        }
    }

    /// The character that fires this trigger.
    pub fn trigger_char(&self) -> (r: char)
        ensures
            r == char_of_trigger(*self),
    {
        match self {
            PrefixTrigger::AgentSelector => '@',
            PrefixTrigger::NudgeSelector => '/',
        }
    }
}

/// Whether prefix triggers should be evaluated: the input text is
/// completely empty and there are no attachments.
pub fn should_check_prefix(text: &str, has_attachments: bool) -> (r: bool)
    ensures
        r == input_is_blank(text@, has_attachments),
{
    text.is_empty() && !has_attachments
}

/// Decides whether the typed character `c` is handled as a prefix trigger:
/// it returns the trigger to execute (the character was handled), or
/// `None` when `c` is ordinary input.
pub fn try_handle_prefix(text: &str, has_attachments: bool, c: char) -> (r: Option<PrefixTrigger>)
    ensures
        r == (if input_is_blank(text@, has_attachments) {
            trigger_for_char(c)
        } else {
            None
        }),
{
    if !should_check_prefix(text, has_attachments) {
        return None;
    }
    PrefixTrigger::from_char(c)
}

/// Each trigger is fired by its own character, and a character fires only
/// the trigger whose character it is.
pub proof fn lemma_trigger_char_round_trip(t: PrefixTrigger, c: char)
    ensures
        trigger_for_char(char_of_trigger(t)) == Some(t),
        trigger_for_char(c) == Some(t) ==> char_of_trigger(t) == c,
{
}

} // verus!
