//! The raw event viewer's JSON: pretty-printed through serde_json when the
//! stored text parses, shown as stored otherwise.

use vstd::prelude::*;
use crate::messages::opt_view;

verus! {

/// The pretty-printed form of a JSON text: the value that serde_json
/// parses from the text, rendered by serde_json's pretty printer. `None`
/// when serde_json does not parse the text (or does not render the value).
pub uninterp spec fn pretty_json(text: Seq<char>) -> Option<Seq<char>>;

/// Calls `serde_json::from_str::<serde_json::Value>` on the text and
/// `serde_json::to_string_pretty` on the value it parses. Claimed: the
/// outcome is `pretty_json` of the text, which depends on the text alone.
#[verifier::external_body]
fn pretty_json_text(text: &str) -> (r: Option<String>)
    ensures
        opt_view(r) == pretty_json(text@),
{
    match serde_json::from_str::<serde_json::Value>(text) {
        Ok(value) => serde_json::to_string_pretty(&value).ok(),
        Err(_) => None,
    }
}

/// The text to show for a stored event: the pretty rendering when there is
/// one, the stored text otherwise.
pub fn select_event_json(stored: String, rendered: Option<String>) -> (r: String)
    ensures
        r@ == match rendered {
            Some(p) => p@,
            None => stored@,
        },
{
    match rendered {
        Some(p) => p,
        None => stored,
    }
}

/// Pretty-prints a stored event's JSON; text that does not parse is shown
/// as stored.
pub fn pretty_event_json(json: String) -> (r: String)
    ensures
        r@ == match pretty_json(json@) {
            Some(p) => p,
            None => json@,
        },
{
    let rendered = pretty_json_text(json.as_str());
    select_event_json(json, rendered)
}

} // verus!
