//! Jaeger trace viewer URLs: endpoint validation and trace URL construction.
//! Opening the URL in a browser is left to the application.

use vstd::prelude::*;
use vstd::string::*;
use crate::text::{
    byte_prefix, byte_prefix_chars, cuts_at_boundary, min_len, starts_with, trim, trim_end_matches_char,
    trim_end_matches_seq, trim_seq, trim_start_seq, trim_end_seq, is_white_space,
};

verus! {

/// The message for an endpoint that is empty after trimming.
pub open spec fn empty_endpoint_message() -> Seq<char> {
    "Jaeger endpoint cannot be empty"@
}

/// The message for an endpoint without an http or https scheme.
pub open spec fn missing_scheme_message() -> Seq<char> {
    "Jaeger endpoint must start with http:// or https://"@
}

/// Whether `s` starts with `http://` or `https://`.
pub open spec fn has_http_scheme(s: Seq<char>) -> bool {
    "http://"@.is_prefix_of(s) || "https://"@.is_prefix_of(s)
}

/// What validating `endpoint` gives: the trimmed endpoint without trailing
/// slashes, or the message saying why it is refused.
pub open spec fn normalized_endpoint(endpoint: Seq<char>) -> Result<Seq<char>, Seq<char>> {
    let t = trim_seq(endpoint);
    if t.len() == 0 {
        Err(empty_endpoint_message())
    } else if !has_http_scheme(t) {
        Err(missing_scheme_message())
    } else {
        Ok(trim_end_matches_seq(t, '/'))
    }
}

/// The trace URL for a normalized endpoint, a trace id and an optional span id.
pub open spec fn trace_url(endpoint: Seq<char>, trace_id: Seq<char>, span_id: Option<Seq<char>>) -> Seq<
    char,
> {
    match span_id {
        Some(span) => endpoint + "/trace/"@ + trace_id + "?uiFind="@ + span,
        None => endpoint + "/trace/"@ + trace_id,
    }
}

/// What building a trace URL gives: the URL, or the endpoint's error.
pub open spec fn built_trace_url(
    endpoint: Seq<char>,
    trace_id: Seq<char>,
    span_id: Option<Seq<char>>,
) -> Result<Seq<char>, Seq<char>> {
    match normalized_endpoint(endpoint) {
        Ok(n) => Ok(trace_url(n, trace_id, span_id)),
        Err(e) => Err(e),
    }
}

/// The view of a `Result<String, String>`.
pub open spec fn result_view(r: Result<String, String>) -> Result<Seq<char>, Seq<char>> {
    match r {
        Ok(s) => Ok(s@),
        Err(e) => Err(e@),
    }
}

/// The view of an optional string slice.
pub open spec fn opt_str_view(s: Option<&str>) -> Option<Seq<char>> {
    match s {
        Some(x) => Some(x@),
        None => None,
    }
}

/// Validates and normalizes a Jaeger endpoint URL: it must not be empty
/// after trimming, it must start with `http://` or `https://`, and its
/// trailing slashes are removed.
pub fn validate_and_normalize_endpoint(endpoint: &str) -> (r: Result<String, String>)
    ensures
        result_view(r) == normalized_endpoint(endpoint@),
{
    let trimmed = trim(endpoint);
    if trimmed.unicode_len() == 0 {
        return Err("Jaeger endpoint cannot be empty".to_owned());
    }
    if !starts_with(trimmed, "http://") && !starts_with(trimmed, "https://") {
        return Err("Jaeger endpoint must start with http:// or https://".to_owned());
    }
    let normalized = trim_end_matches_char(trimmed, '/');
    Ok(normalized.to_owned())
}

/// Builds a Jaeger trace URL for a trace and an optional span, or returns
/// the endpoint's validation error.
pub fn build_trace_url(endpoint: &str, trace_id: &str, span_id: Option<&str>) -> (r: Result<
    String,
    String,
>)
    ensures
        result_view(r) == built_trace_url(endpoint@, trace_id@, opt_str_view(span_id)),
{
    let mut url = match validate_and_normalize_endpoint(endpoint) {
        Ok(n) => n,
        Err(e) => return Err(e),
    };
    url.append("/trace/");
    url.append(trace_id);
    match span_id {
        Some(span) => {
            url.append("?uiFind=");
            url.append(span);
        },
        None => {},
    }
    Ok(url)
}

/// The status line after trying to open a trace in the browser.
pub fn trace_open_status(result: Result<(), String>) -> (r: String)
    ensures
        r@ == match result {
            Ok(()) => "Opening trace in browser..."@,
            Err(e) => "Failed to open trace: "@ + e@,
        },
{
    match result {
        Ok(()) => "Opening trace in browser...".to_owned(),
        Err(e) => {
            let mut r = "Failed to open trace: ".to_owned();
            r.append(e.as_str());
            r
        },
    }
}

/// The trace id of a conversation: the first 32 bytes of its root event id.
pub fn conversation_trace_id(thread_id: &str) -> (r: &str)
    requires
        cuts_at_boundary(thread_id, 32),
    ensures
        r@ == byte_prefix_chars(thread_id, min_len(thread_id, 32)),
{
    byte_prefix(thread_id, 32)
}

proof fn lemma_trim_start_first(s: Seq<char>)
    ensures
        trim_start_seq(s).len() > 0 ==> !is_white_space(trim_start_seq(s)[0]),
    decreases s.len(),
{
    if s.len() > 0 && is_white_space(s[0]) {
        lemma_trim_start_first(s.drop_first());
    }
}

proof fn lemma_trim_end_is_prefix(s: Seq<char>)
    ensures
        trim_end_seq(s).len() <= s.len(),
        trim_end_seq(s) == s.take(trim_end_seq(s).len() as int),
    decreases s.len(),
{
    if s.len() > 0 && is_white_space(s.last()) {
        lemma_trim_end_is_prefix(s.drop_last());
        assert(s.drop_last().take(trim_end_seq(s).len() as int) =~= s.take(
            trim_end_seq(s).len() as int,
        ));
    } else {
        assert(s.take(s.len() as int) =~= s);
    }
}

proof fn lemma_trim_end_matches_shape(s: Seq<char>, c: char)
    ensures
        trim_end_matches_seq(s, c).len() <= s.len(),
        trim_end_matches_seq(s, c) == s.take(trim_end_matches_seq(s, c).len() as int),
        trim_end_matches_seq(s, c).len() > 0 ==> trim_end_matches_seq(s, c).last() != c,
    decreases s.len(),
{
    if s.len() > 0 && s.last() == c {
        lemma_trim_end_matches_shape(s.drop_last(), c);
        assert(s.drop_last().take(trim_end_matches_seq(s, c).len() as int) =~= s.take(
            trim_end_matches_seq(s, c).len() as int,
        ));
    } else {
        assert(s.take(s.len() as int) =~= s);
    }
}

/// Validating a normalized endpoint gives it back unchanged, so building a
/// trace URL from an endpoint or from its normalized form gives the same
/// URL. This needs the normalized form to keep its scheme and not to end
/// in white space (removing slashes can expose either).
pub proof fn lemma_normalization_is_stable(endpoint: Seq<char>, trace_id: Seq<char>, span_id: Option<
    Seq<char>,
>)
    requires
        normalized_endpoint(endpoint) is Ok,
        has_http_scheme(normalized_endpoint(endpoint)->Ok_0),
        !is_white_space(normalized_endpoint(endpoint)->Ok_0.last()),
    ensures
        normalized_endpoint(normalized_endpoint(endpoint)->Ok_0) == normalized_endpoint(endpoint),
        built_trace_url(normalized_endpoint(endpoint)->Ok_0, trace_id, span_id) == built_trace_url(
            endpoint,
            trace_id,
            span_id,
        ),
{
    let t = trim_seq(endpoint);
    let n = normalized_endpoint(endpoint)->Ok_0;
    assert(n == trim_end_matches_seq(t, '/'));
    lemma_trim_end_matches_shape(t, '/');
    lemma_trim_start_first(endpoint);
    lemma_trim_end_is_prefix(trim_start_seq(endpoint));
    assert(n.len() >= 7) by {
        reveal_strlit("http://");
        reveal_strlit("https://");
    }
    assert(n[0] == t[0]);
    assert(t[0] == trim_start_seq(endpoint)[0]);
    assert(trim_start_seq(n) == n);
    assert(trim_end_seq(n) == n);
    assert(trim_end_matches_seq(n, '/') == n);
}

} // verus!
