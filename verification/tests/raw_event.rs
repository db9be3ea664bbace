use tenex_tui::raw_event::{pretty_event_json, select_event_json};

#[test]
fn valid_json_is_pretty_printed() {
    let out = pretty_event_json("{\"kind\":1,\"tags\":[]}".to_string());
    assert_eq!(out, "{\n  \"kind\": 1,\n  \"tags\": []\n}");
}

#[test]
fn invalid_json_is_kept() {
    assert_eq!(pretty_event_json("not json".to_string()), "not json");
}

#[test]
fn rendering_is_chosen_when_there_is_one() {
    assert_eq!(select_event_json("{}".to_string(), Some("{\n}".to_string())), "{\n}");
    assert_eq!(select_event_json("oops".to_string(), None), "oops");
    assert_eq!(pretty_event_json("[1,2]".to_string()), "[\n  1,\n  2\n]");
}
