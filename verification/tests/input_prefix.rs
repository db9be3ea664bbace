use tenex_tui::input_prefix::{should_check_prefix, try_handle_prefix, PrefixTrigger};

#[test]
fn prefix_characters_map_to_triggers() {
    assert_eq!(PrefixTrigger::from_char('@'), Some(PrefixTrigger::AgentSelector));
    assert_eq!(PrefixTrigger::from_char('/'), Some(PrefixTrigger::NudgeSelector));
    assert_eq!(PrefixTrigger::from_char('#'), None);
    assert_eq!(PrefixTrigger::from_char('a'), None);
}

#[test]
fn trigger_char_round_trips() {
    for t in [PrefixTrigger::AgentSelector, PrefixTrigger::NudgeSelector] {
        assert_eq!(PrefixTrigger::from_char(t.trigger_char()), Some(t));
    }
    assert_eq!(PrefixTrigger::AgentSelector.trigger_char(), '@');
    assert_eq!(PrefixTrigger::NudgeSelector.trigger_char(), '/');
}

#[test]
fn prefix_only_on_blank_input() {
    assert!(should_check_prefix("", false));
    assert!(!should_check_prefix("", true));
    assert!(!should_check_prefix("x", false));
    assert_eq!(try_handle_prefix("", false, '@'), Some(PrefixTrigger::AgentSelector));
    assert_eq!(try_handle_prefix("", false, '/'), Some(PrefixTrigger::NudgeSelector));
    assert_eq!(try_handle_prefix("", false, 'x'), None);
    assert_eq!(try_handle_prefix("hi", false, '@'), None);
    assert_eq!(try_handle_prefix("", true, '/'), None);
}
